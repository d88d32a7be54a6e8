//! Typed publish/subscribe values: what travels on the wire and how endpoints are named.
pub mod codec;
pub mod opcua;
pub mod packet;
pub mod slot;

use crate::ipc::codec::TypeName;
use crate::progbase::Options;
use crate::text::{join, spec_join};
use std::marker::PhantomData;
use vstd::prelude::*;
use vstd::string::*;

verus! {

/// Prefix of the socket endpoints.
pub const ZMQ_PREFIX: &'static str = "ipc://";

/// The runtime directory: the value of `RUNTIME_DIRECTORY` when set,
/// "/var/run/tfc/" otherwise.
pub fn path(env_value: Option<String>) -> (s: String)
    ensures
        match env_value {
            Some(v) => s@ == v@,
            None => s@ == "/var/run/tfc/"@,
        },
{
    match env_value {
        Some(v) => v,
        None => String::from_str("/var/run/tfc/"),
    }
}

/// The socket endpoint of `file_name` in the runtime directory `runtime_dir`.
pub fn endpoint(runtime_dir: &str, file_name: &str) -> (s: String)
    ensures
        s@ == "ipc://"@ + spec_join(runtime_dir@, file_name@),
{
    let p = join(runtime_dir, file_name);
    let s = String::from_str(ZMQ_PREFIX);
    s.concat(p.as_str())
}

/// The identity of a signal or a slot carrying values of type `T`.
pub struct Base<T> {
    pub name: String,
    pub description: Option<String>,
    pub log_key: String,
    pub _marker: PhantomData<T>,
}

/// `<type name>/<name>`.
pub open spec fn spec_type_and_name<T: TypeName>(name: Seq<char>) -> Seq<char> {
    T::spec_type_name() + "/"@ + name
}

impl<T: TypeName> Base<T> {
    /// The identity named `name`, logged under `<type name>/<name>`.
    pub fn new(name: &str, description: Option<&str>) -> (b: Self)
        ensures
            b.name@ == name@,
            match description {
                Some(d) => b.description matches Some(bd) && bd@ == d@,
                None => b.description is None,
            },
            b.log_key@ == spec_type_and_name::<T>(name@),
    {
        let description = match description {
            Some(d) => Some(String::from_str(d)),
            None => None,
        };
        Base {
            name: String::from_str(name),
            description,
            log_key: Self::type_and_name(name),
            _marker: PhantomData,
        }
    }

    /// `<type name>/<name>`.
    pub fn type_and_name(name: &str) -> (s: String)
        ensures
            s@ == spec_type_and_name::<T>(name@),
    {
        let s = String::from_str(T::wire_name());
        let s = s.concat("/");
        s.concat(name)
    }

    /// `<exe>.<id>.<type name>.<name>`: the name under which the value is
    /// registered and its socket is bound.
    pub fn full_name(&self, options: &Options) -> (s: String)
        ensures
            s@ == options.exe@ + "."@ + options.id@ + "."@ + T::spec_type_name() + "."@
                + self.name@,
    {
        let s = String::from_str(options.exe.as_str());
        let s = s.concat(".");
        let s = s.concat(options.id.as_str());
        let s = s.concat(".");
        let s = s.concat(T::wire_name());
        let s = s.concat(".");
        s.concat(self.name.as_str())
    }

    /// The socket endpoint of the value in the runtime directory `runtime_dir`.
    pub fn endpoint(&self, options: &Options, runtime_dir: &str) -> (s: String)
        ensures
            s@ == "ipc://"@ + spec_join(
                runtime_dir@,
                options.exe@ + "."@ + options.id@ + "."@ + T::spec_type_name() + "."@ + self.name@,
            ),
    {
        let f = self.full_name(options);
        endpoint(runtime_dir, f.as_str())
    }

    /// The socket file of the value in the runtime directory `runtime_dir`.
    pub fn path(&self, options: &Options, runtime_dir: &str) -> (s: String)
        ensures
            s@ == spec_join(
                runtime_dir@,
                options.exe@ + "."@ + options.id@ + "."@ + T::spec_type_name() + "."@ + self.name@,
            ),
    {
        let f = self.full_name(options);
        join(runtime_dir, f.as_str())
    }

    /// A copy of the identity.
    pub fn copy(&self) -> (b: Self)
        ensures
            b.name@ == self.name@,
            b.log_key@ == self.log_key@,
            match self.description {
                Some(d) => b.description matches Some(bd) && bd@ == d@,
                None => b.description is None,
            },
    {
        let description = match &self.description {
            Some(d) => Some(d.clone()),
            None => None,
        };
        Base {
            name: self.name.clone(),
            description,
            log_key: self.log_key.clone(),
            _marker: PhantomData,
        }
    }
}

} // verus!
