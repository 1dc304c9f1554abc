//! The first version of the custom resource, group `frp.parzival.space`,
//! version `v1`, which named the client, its server and its token directly.
use vstd::prelude::*;

verus! {

/// The desired state of an `FrpClient` (`v1`).
pub struct FrpClientSpec {
    pub name: String,
    pub server_addr: String,
    pub token: String,
}

/// The desired state of a `Client` (`v1`).
pub struct ClientSpec {
    pub name: String,
    pub server_addr: String,
    pub token: String,
}

impl Default for FrpClientSpec {
    fn default() -> (s: Self)
        ensures
            s.name@ == Seq::<char>::empty(),
            s.server_addr@ == Seq::<char>::empty(),
            s.token@ == Seq::<char>::empty(),
    {
        FrpClientSpec { name: String::new(), server_addr: String::new(), token: String::new() }
    }
}

impl Default for ClientSpec {
    fn default() -> (s: Self)
        ensures
            s.name@ == Seq::<char>::empty(),
            s.server_addr@ == Seq::<char>::empty(),
            s.token@ == Seq::<char>::empty(),
    {
        ClientSpec { name: String::new(), server_addr: String::new(), token: String::new() }
    }
}

} // verus!
