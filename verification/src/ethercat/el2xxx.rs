//! Beckhoff EL2xxx digital output terminals: the names of their outputs and
//! how the outputs are written to the process image.
use crate::ethercat::devices::{DeviceInfo, DeviceKind, Ek1100, prefix, spec_identify, spec_prefix};
use crate::text::{decimal, spec_decimal};
use std::marker::PhantomData;
use vstd::prelude::*;
use vstd::string::*;

verus! {

/// The channel numbers printed on a terminal, in the order of the bits of its
/// process image.
pub trait Entries {
    spec fn spec_entries() -> Seq<u8>;

    fn entries() -> (r: Vec<u8>)
        ensures
            r@ == Self::spec_entries(),
    ;
}

/// EL2794: four outputs.
pub struct El2794Info;

/// EL2004: four outputs.
pub struct El2004Info;

/// EL2008: eight outputs.
pub struct El2008Info;

/// EL2809: sixteen outputs.
pub struct El2809Info;

impl DeviceInfo for El2794Info {
    open spec fn spec_vendor_id() -> u32 {
        0x2
    }

    open spec fn spec_product_id() -> u32 {
        0xaea3052
    }

    open spec fn spec_name() -> Seq<char> {
        "el2794"@
    }

    fn vendor_id() -> (r: u32) {
        0x2
    }

    fn product_id() -> (r: u32) {
        0xaea3052
    }

    fn name() -> (r: &'static str) {
        "el2794"
    }
}

impl DeviceInfo for El2004Info {
    open spec fn spec_vendor_id() -> u32 {
        0x2
    }

    open spec fn spec_product_id() -> u32 {
        0x7d43052
    }

    open spec fn spec_name() -> Seq<char> {
        "el2004"@
    }

    fn vendor_id() -> (r: u32) {
        0x2
    }

    fn product_id() -> (r: u32) {
        0x7d43052
    }

    fn name() -> (r: &'static str) {
        "el2004"
    }
}

impl DeviceInfo for El2008Info {
    open spec fn spec_vendor_id() -> u32 {
        0x2
    }

    open spec fn spec_product_id() -> u32 {
        0x7d83052
    }

    open spec fn spec_name() -> Seq<char> {
        "el2008"@
    }

    fn vendor_id() -> (r: u32) {
        0x2
    }

    fn product_id() -> (r: u32) {
        0x7d83052
    }

    fn name() -> (r: &'static str) {
        "el2008"
    }
}

impl DeviceInfo for El2809Info {
    open spec fn spec_vendor_id() -> u32 {
        0x2
    }

    open spec fn spec_product_id() -> u32 {
        0xaf93052
    }

    open spec fn spec_name() -> Seq<char> {
        "el2809"@
    }

    fn vendor_id() -> (r: u32) {
        0x2
    }

    fn product_id() -> (r: u32) {
        0xaf93052
    }

    fn name() -> (r: &'static str) {
        "el2809"
    }
}

impl Entries for El2794Info {
    open spec fn spec_entries() -> Seq<u8> {
        seq![1, 5, 4, 8]
    }

    fn entries() -> (r: Vec<u8>) {
        let r = vec![1, 5, 4, 8];
        assert(r@ =~= seq![1u8, 5, 4, 8]);
        r
    }
}

impl Entries for El2004Info {
    open spec fn spec_entries() -> Seq<u8> {
        seq![1, 5, 4, 8]
    }

    fn entries() -> (r: Vec<u8>) {
        let r = vec![1, 5, 4, 8];
        assert(r@ =~= seq![1u8, 5, 4, 8]);
        r
    }
}

impl Entries for El2008Info {
    open spec fn spec_entries() -> Seq<u8> {
        seq![1, 5, 2, 6, 3, 7, 4, 8]
    }

    fn entries() -> (r: Vec<u8>) {
        let r = vec![1, 5, 2, 6, 3, 7, 4, 8];
        assert(r@ =~= seq![1u8, 5, 2, 6, 3, 7, 4, 8]);
        r
    }
}

impl Entries for El2809Info {
    open spec fn spec_entries() -> Seq<u8> {
        seq![1, 2, 3, 4, 5, 6, 7, 8, 9, 10, 11, 12, 13, 14, 15, 16]
    }

    fn entries() -> (r: Vec<u8>) {
        let r = vec![1, 2, 3, 4, 5, 6, 7, 8, 9, 10, 11, 12, 13, 14, 15, 16];
        assert(r@ =~= seq![1u8, 2, 3, 4, 5, 6, 7, 8, 9, 10, 11, 12, 13, 14, 15, 16]);
        r
    }
}

/// Bit `i` of a process image, least significant bit of the first byte first.
pub open spec fn spec_image_bit(bytes: Seq<u8>, i: int) -> bool {
    (bytes[i / 8] >> ((i % 8) as u8)) & 1u8 == 1u8
}

/// The value of bit `k` of a byte.
pub open spec fn byte_bit(b: u8, k: int) -> bool {
    (b as int / vstd::arithmetic::power2::pow2(k as nat) as int) % 2 == 1
}

/// Bit `i` of a process image is the bit of weight `2^(i % 8)` in byte
/// `i / 8`: outputs fill each byte from its least significant bit and the
/// bytes in order.
pub proof fn lemma_image_bit_weight(bytes: Seq<u8>, i: int)
    requires
        0 <= i < 8 * bytes.len(),
    ensures
        spec_image_bit(bytes, i) == byte_bit(bytes[i / 8], i % 8),
{
    let b = bytes[i / 8];
    let k = i % 8;
    vstd::arithmetic::power2::lemma2_to64();
    if k == 0 {
        assert(((b >> 0u8) & 1u8 == 1u8) == (b % 2 == 1)) by (bit_vector);
        assert(vstd::arithmetic::power2::pow2(0) == 1);
        assert((k as u8) == 0u8);
        assert(spec_image_bit(bytes, i) == ((b >> 0u8) & 1u8 == 1u8));
        assert(byte_bit(b, k) == ((b as int / 1) % 2 == 1));
    } else if k == 1 {
        assert(((b >> 1u8) & 1u8 == 1u8) == ((b / 2) % 2 == 1)) by (bit_vector);
        assert(vstd::arithmetic::power2::pow2(1) == 2);
        assert((k as u8) == 1u8);
        assert(spec_image_bit(bytes, i) == ((b >> 1u8) & 1u8 == 1u8));
        assert(byte_bit(b, k) == ((b as int / 2) % 2 == 1));
    } else if k == 2 {
        assert(((b >> 2u8) & 1u8 == 1u8) == ((b / 4) % 2 == 1)) by (bit_vector);
        assert(vstd::arithmetic::power2::pow2(2) == 4);
        assert((k as u8) == 2u8);
        assert(spec_image_bit(bytes, i) == ((b >> 2u8) & 1u8 == 1u8));
        assert(byte_bit(b, k) == ((b as int / 4) % 2 == 1));
    } else if k == 3 {
        assert(((b >> 3u8) & 1u8 == 1u8) == ((b / 8) % 2 == 1)) by (bit_vector);
        assert(vstd::arithmetic::power2::pow2(3) == 8);
        assert((k as u8) == 3u8);
        assert(spec_image_bit(bytes, i) == ((b >> 3u8) & 1u8 == 1u8));
        assert(byte_bit(b, k) == ((b as int / 8) % 2 == 1));
    } else if k == 4 {
        assert(((b >> 4u8) & 1u8 == 1u8) == ((b / 16) % 2 == 1)) by (bit_vector);
        assert(vstd::arithmetic::power2::pow2(4) == 16);
        assert((k as u8) == 4u8);
        assert(spec_image_bit(bytes, i) == ((b >> 4u8) & 1u8 == 1u8));
        assert(byte_bit(b, k) == ((b as int / 16) % 2 == 1));
    } else if k == 5 {
        assert(((b >> 5u8) & 1u8 == 1u8) == ((b / 32) % 2 == 1)) by (bit_vector);
        assert(vstd::arithmetic::power2::pow2(5) == 32);
        assert((k as u8) == 5u8);
        assert(spec_image_bit(bytes, i) == ((b >> 5u8) & 1u8 == 1u8));
        assert(byte_bit(b, k) == ((b as int / 32) % 2 == 1));
    } else if k == 6 {
        assert(((b >> 6u8) & 1u8 == 1u8) == ((b / 64) % 2 == 1)) by (bit_vector);
        assert(vstd::arithmetic::power2::pow2(6) == 64);
        assert((k as u8) == 6u8);
        assert(spec_image_bit(bytes, i) == ((b >> 6u8) & 1u8 == 1u8));
        assert(byte_bit(b, k) == ((b as int / 64) % 2 == 1));
    } else {
        assert(((b >> 7u8) & 1u8 == 1u8) == ((b / 128) % 2 == 1)) by (bit_vector);
        assert(vstd::arithmetic::power2::pow2(7) == 128);
        assert((k as u8) == 7u8);
        assert(spec_image_bit(bytes, i) == ((b >> 7u8) & 1u8 == 1u8));
        assert(byte_bit(b, k) == ((b as int / 128) % 2 == 1));
    }
}

proof fn lemma_set_bit_u8(b: u8, k: u8, j: u8)
    by (bit_vector)
    requires
        k < 8,
        j < 8,
    ensures
        ((b | (1u8 << k)) >> j) & 1u8 == (if j == k {
            1u8
        } else {
            (b >> j) & 1u8
        }),
        ((b & !(1u8 << k)) >> j) & 1u8 == (if j == k {
            0u8
        } else {
            (b >> j) & 1u8
        }),
{
}

/// Sets bit `idx` of a process image to `bit`.
pub fn set_image_bit(image: &mut [u8], idx: usize, bit: bool)
    requires
        idx < 8 * old(image)@.len(),
    ensures
        final(image)@.len() == old(image)@.len(),
        forall|j: int|
            0 <= j < 8 * old(image)@.len() ==> spec_image_bit(final(image)@, j) == (if j
                == idx {
                bit
            } else {
                spec_image_bit(old(image)@, j)
            }),
{
    let byte_i = idx / 8;
    let k = (idx % 8) as u8;
    let b = image[byte_i];
    let nb = if bit {
        b | (1u8 << k)
    } else {
        b & !(1u8 << k)
    };
    image[byte_i] = nb;
    assert forall|j: int| 0 <= j < 8 * old(image)@.len() implies spec_image_bit(image@, j) == (if j
        == idx {
        bit
    } else {
        spec_image_bit(old(image)@, j)
    }) by {
        if j / 8 == byte_i {
            lemma_set_bit_u8(b, k, (j % 8) as u8);
        }
    }
}

/// Why output data was not written.
#[derive(Clone, Copy, Debug, PartialEq, Eq, Structural)]
pub enum OutputError {
    /// The process image is not as long as the terminal's.
    LengthMismatch,
}

/// An EL2xxx terminal with `N` outputs and a process image of `ARR_LEN` bytes.
pub struct El2xxx<D, const N: usize, const ARR_LEN: usize> {
    error: bool,
    _marker: PhantomData<D>,
}

/// EL2794: four outputs in one byte.
pub type El2794 = El2xxx<El2794Info, 4, 1>;

/// EL2004: four outputs in one byte.
pub type El2004 = El2xxx<El2004Info, 4, 1>;

/// EL2008: eight outputs in one byte.
pub type El2008 = El2xxx<El2008Info, 8, 1>;

/// EL2809: sixteen outputs in two bytes.
pub type El2809 = El2xxx<El2809Info, 16, 2>;

impl<D: DeviceInfo + Entries, const N: usize, const ARR_LEN: usize> El2xxx<D, N, ARR_LEN> {
    /// Whether the last write was refused for a wrong image length.
    pub closed spec fn spec_error(&self) -> bool {
        self.error
    }

    /// Whether the last write was refused for a wrong image length.
    pub fn error(&self) -> (b: bool)
        ensures
            b == self.spec_error(),
    {
        self.error
    }

    /// A terminal that has not refused a write.
    pub fn new() -> (t: Self)
        ensures
            !t.spec_error(),
    {
        El2xxx { error: false, _marker: PhantomData }
    }

    /// The name prefix of the terminal: `<name>/<number>`, or
    /// `<name>/alias/<alias>` when it has an alias address.
    pub fn prefix(number: u16, alias: u16) -> (s: String)
        ensures
            s@ == spec_prefix(D::spec_name() + "/"@, D::spec_name() + "/alias/"@, number, alias),
    {
        let head = String::from_str(D::name()).concat("/");
        let alias_head = String::from_str(D::name()).concat("/alias/");
        prefix(head.as_str(), alias_head.as_str(), number, alias)
    }

    /// The names of the outputs' slots, `<prefix>/in<channel>`, in bit order.
    pub fn slot_names(number: u16, alias: u16) -> (r: Vec<String>)
        ensures
            r@.len() == D::spec_entries().len(),
            forall|i: int|
                0 <= i < r@.len() ==> #[trigger] r@[i]@ == spec_prefix(
                    D::spec_name() + "/"@,
                    D::spec_name() + "/alias/"@,
                    number,
                    alias,
                ) + "/in"@ + spec_decimal(D::spec_entries()[i] as nat),
    {
        let p = Self::prefix(number, alias);
        let entries = D::entries();
        let mut r: Vec<String> = Vec::new();
        let mut i: usize = 0;
        while i < entries.len()
            invariant
                entries@ == D::spec_entries(),
                p@ == spec_prefix(D::spec_name() + "/"@, D::spec_name() + "/alias/"@, number, alias),
                i <= entries@.len(),
                r@.len() == i,
                forall|k: int|
                    0 <= k < i ==> #[trigger] r@[k]@ == p@ + "/in"@ + spec_decimal(
                        entries@[k] as nat,
                    ),
            decreases entries@.len() - i,
        {
            let d = decimal(entries[i] as u64);
            let s = String::from_str(p.as_str()).concat("/in").concat(d.as_str());
            r.push(s);
            i = i + 1;
        }
        r
    }

    /// Writes the output values `bits` into the process image `output`.
    /// An image of the wrong length is refused once and flagged; while the
    /// flag is up the next write goes ahead and clears it.
    pub fn process_data(&mut self, output: &mut [u8], bits: &[bool]) -> (r: Result<(), OutputError>)
        requires
            bits@.len() == N,
            (old(self).spec_error() || old(output)@.len() == ARR_LEN) ==> N <= 8 * old(
                output,
            )@.len(),
        ensures
            final(output)@.len() == old(output)@.len(),
            (old(output)@.len() != ARR_LEN && !old(self).spec_error()) ==> r == Err::<
                (),
                OutputError,
            >(OutputError::LengthMismatch) && final(self).spec_error() && final(output)@ == old(
                output,
            )@,
            (old(output)@.len() == ARR_LEN || old(self).spec_error()) ==> r is Ok
                && !final(self).spec_error() && forall|j: int|
                0 <= j < 8 * old(output)@.len() ==> spec_image_bit(final(output)@, j) == (if j
                    < N {
                    bits@[j]
                } else {
                    spec_image_bit(old(output)@, j)
                }),
    {
        if output.len() != ARR_LEN && !self.error {
            self.error = true;
            return Err(OutputError::LengthMismatch);
        }
        self.error = false;
        let mut idx: usize = 0;
        while idx < N
            invariant
                bits@.len() == N,
                N <= 8 * old(output)@.len(),
                output@.len() == old(output)@.len(),
                idx <= N,
                forall|j: int|
                    0 <= j < 8 * old(output)@.len() ==> spec_image_bit(output@, j) == (if j
                        < idx {
                        bits@[j]
                    } else {
                        spec_image_bit(old(output)@, j)
                    }),
            decreases N - idx,
        {
            set_image_bit(output, idx, bits[idx]);
            idx = idx + 1;
        }
        Ok(())
    }
}

/// Each terminal's own identity is the one by which the bus recognizes it.
pub proof fn lemma_terminals_identified()
    ensures
        spec_identify(El2794Info::spec_vendor_id(), El2794Info::spec_product_id())
            == DeviceKind::El2794,
        spec_identify(El2004Info::spec_vendor_id(), El2004Info::spec_product_id())
            == DeviceKind::El2004,
        spec_identify(El2008Info::spec_vendor_id(), El2008Info::spec_product_id())
            == DeviceKind::El2008,
        spec_identify(El2809Info::spec_vendor_id(), El2809Info::spec_product_id())
            == DeviceKind::El2809,
        spec_identify(Ek1100::spec_vendor_id(), Ek1100::spec_product_id()) == DeviceKind::Ek1100,
{
}

} // verus!
