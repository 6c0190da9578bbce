use vstd::prelude::*;

verus! {

/// What identifies an account: the origin of its platform instance and the
/// account's identifier there.
pub struct KeyView {
    pub origin: Seq<char>,
    pub identifier: Seq<char>,
}

/// One account on one platform instance.
#[derive(Debug, Hash)]
pub struct AccountKey {
    pub origin: String,
    pub identifier: String,
}

impl View for AccountKey {
    type V = KeyView;

    open spec fn view(&self) -> KeyView {
        KeyView { origin: self.origin@, identifier: self.identifier@ }
    }
}

impl Clone for AccountKey {
    fn clone(&self) -> (r: Self)
        ensures
            r == *self,
    {
        AccountKey { origin: self.origin.clone(), identifier: self.identifier.clone() }
    }
}

impl PartialEq for AccountKey {
    fn eq(&self, o: &AccountKey) -> (r: bool) {
        self.origin == o.origin && self.identifier == o.identifier
    }
}

impl vstd::std_specs::cmp::PartialEqSpecImpl for AccountKey {
    open spec fn obeys_eq_spec() -> bool {
        true
    }

    open spec fn eq_spec(&self, o: &AccountKey) -> bool {
        self@ == o@
    }
}

impl Eq for AccountKey {}

impl AccountKey {
    pub fn new(origin: String, identifier: String) -> (r: AccountKey)
        ensures
            r.origin == origin,
            r.identifier == identifier,
    {
        AccountKey { origin, identifier }
    }
}

/// One synchronization edge: the source account and one of its destinations.
#[derive(Debug, Hash)]
pub struct AccountPair {
    pub src: AccountKey,
    pub dst: AccountKey,
}

impl Clone for AccountPair {
    fn clone(&self) -> (r: Self)
        ensures
            r == *self,
    {
        AccountPair { src: self.src.clone(), dst: self.dst.clone() }
    }
}

impl PartialEq for AccountPair {
    fn eq(&self, o: &AccountPair) -> (r: bool) {
        self.src == o.src && self.dst == o.dst
    }
}

impl vstd::std_specs::cmp::PartialEqSpecImpl for AccountPair {
    open spec fn obeys_eq_spec() -> bool {
        true
    }

    open spec fn eq_spec(&self, o: &AccountPair) -> bool {
        self.src@ == o.src@ && self.dst@ == o.dst@
    }
}

impl Eq for AccountPair {}

impl AccountPair {
    pub fn new(src: AccountKey, dst: AccountKey) -> (r: AccountPair)
        ensures
            r.src == src,
            r.dst == dst,
    {
        AccountPair { src, dst }
    }

    pub fn to_src_key(&self) -> (r: AccountKey)
        ensures
            r == self.src,
    {
        self.src.clone()
    }

    pub fn to_dst_key(&self) -> (r: AccountKey)
        ensures
            r == self.dst,
    {
        self.dst.clone()
    }
}

} // verus!
