//! A configuration value kept in a JSON file under a key: the value in
//! memory, the file it is stored in, and what the file starts with.
use vstd::prelude::*;

verus! {

/// A configuration value of type `T` and the file that stores it.
pub struct ConfMan<T> {
    value: T,
    filename: String,
    log_key: String,
}

/// A change being made to a configuration; the caller stores the
/// configuration when the change is done.
pub struct Change<'a, T> {
    pub value: &'a mut T,
}

/// The text a configuration starts from: what its file holds, or the
/// default value's JSON when the file is empty (and is then written with it).
pub fn initial_content(file_content: String, default_json: String) -> (s: String)
    ensures
        file_content@.len() == 0 ==> s@ == default_json@,
        file_content@.len() != 0 ==> s@ == file_content@,
{
    if file_content.as_str().is_empty() {
        default_json
    } else {
        file_content
    }
}

impl<T> ConfMan<T> {
    pub closed spec fn spec_value(&self) -> T {
        self.value
    }

    pub closed spec fn spec_file(&self) -> Seq<char> {
        self.filename@
    }

    pub closed spec fn spec_key(&self) -> Seq<char> {
        self.log_key@
    }

    /// The same configuration holding `value`: file and key stay.
    pub closed spec fn spec_with_value(self, value: T) -> Self {
        ConfMan { value, ..self }
    }

    /// The configuration under `key`, read from `filename` as `value`.
    pub fn new_test(value: T, filename: String, key: &str) -> (c: Self)
        ensures
            c.spec_value() == value,
            c.spec_file() == filename@,
            c.spec_key() == key@,
    {
        ConfMan { value, filename, log_key: key.to_owned() }
    }

    /// The current value.
    pub fn value(&self) -> (r: &T)
        ensures
            *r == self.spec_value(),
    {
        &self.value
    }

    /// The file that stores the configuration.
    pub fn file(&self) -> (r: &str)
        ensures
            r@ == self.spec_file(),
    {
        self.filename.as_str()
    }

    /// The key of the configuration.
    pub fn key(&self) -> (r: &str)
        ensures
            r@ == self.spec_key(),
    {
        self.log_key.as_str()
    }

    /// Replaces the value, as a new value read from JSON does.
    pub fn set_value(&mut self, value: T)
        ensures
            *final(self) == old(self).spec_with_value(value),
            final(self).spec_value() == value,
            final(self).spec_file() == old(self).spec_file(),
            final(self).spec_key() == old(self).spec_key(),
    {
        self.value = value;
    }

    /// The value, to be changed in place; the file and the key stay.
    pub fn value_mut(&mut self) -> (r: &mut T)
        ensures
            *r == old(self).spec_value(),
            *final(self) == old(self).spec_with_value(*final(r)),
            final(self).spec_value() == *final(r),
            final(self).spec_file() == old(self).spec_file(),
            final(self).spec_key() == old(self).spec_key(),
    {
        &mut self.value
    }

    /// Starts a change of the configuration: the change lends out the value.
    pub fn make_change(&mut self) -> (c: Change<'_, T>)
        ensures
            *c.value == old(self).spec_value(),
            *final(self) == old(self).spec_with_value(*final(c.value)),
            final(self).spec_value() == *final(c.value),
            final(self).spec_file() == old(self).spec_file(),
            final(self).spec_key() == old(self).spec_key(),
    {
        Change { value: self.value_mut() }
    }
}

impl<'a, T> Change<'a, T> {
    /// The value, to be changed in place.
    pub fn value_mut(self) -> (r: &'a mut T)
        ensures
            *r == *old(self.value),
            *final(r) == *final(self.value),
    {
        self.value
    }
}

/// The configuration after its value was replaced by each of `values` in
/// turn, as `set_value`, `value_mut` and `make_change` replace it.
pub open spec fn spec_after_changes<T>(c: ConfMan<T>, values: Seq<T>) -> ConfMan<T>
    decreases values.len(),
{
    if values.len() == 0 {
        c
    } else {
        spec_after_changes(c, values.drop_last()).spec_with_value(values.last())
    }
}

/// A configuration's file and key never change: after any sequence of
/// changes of its value they are those it was made with, and it holds the
/// last value given.
pub proof fn lemma_file_never_changes<T>(c: ConfMan<T>, values: Seq<T>)
    ensures
        spec_after_changes(c, values).spec_file() == c.spec_file(),
        spec_after_changes(c, values).spec_key() == c.spec_key(),
        values.len() > 0 ==> spec_after_changes(c, values).spec_value() == values.last(),
    decreases values.len(),
{
    if values.len() > 0 {
        lemma_file_never_changes(c, values.drop_last());
    }
}

} // verus!
