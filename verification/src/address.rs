use vstd::prelude::*;

verus! {

/// An account or contract address, held as its strkey text
/// (for example `GA...` for an account, `C...` for a contract).
#[derive(Debug)]
pub struct Address {
    pub strkey: String,
}

impl View for Address {
    type V = Seq<char>;

    open spec fn view(&self) -> Seq<char> {
        self.strkey@
    }
}

/// The strkey of the all-zero account address.
pub open spec fn zero_account_strkey() -> Seq<char> {
    "GAAAAAAAAAAAAAAAAAAAAAAAAAAAAAAAAAAAAAAAAAAAAAAAAAAAAWHF"@
}

/// The strkey of the all-zero contract address.
pub open spec fn zero_contract_strkey() -> Seq<char> {
    "CAAAAAAAAAAAAAAAAAAAAAAAAAAAAAAAAAAAAAAAAAAAAAAAAAAABSC4"@
}

impl Address {
    /// Builds an address from its strkey text.
    pub fn from_str(strkey: &str) -> (r: Address)
        ensures
            r@ == strkey@,
    {
        Address { strkey: strkey.to_owned() }
    }

    /// Builds an address from an owned strkey string.
    pub fn from_string(strkey: String) -> (r: Address)
        ensures
            r@ == strkey@,
    {
        Address { strkey }
    }

    /// Whether two addresses are the same address.
    pub fn same(&self, other: &Address) -> (r: bool)
        ensures
            r == (self@ == other@),
    {
        self.strkey == other.strkey
    }

    /// Whether this is one of the two all-zero addresses (account or contract).
    pub fn is_zero(&self) -> (r: bool)
        ensures
            r == (self@ == zero_account_strkey() || self@ == zero_contract_strkey()),
    {
        let zero_account = "GAAAAAAAAAAAAAAAAAAAAAAAAAAAAAAAAAAAAAAAAAAAAAAAAAAAAWHF".to_owned();
        let zero_contract = "CAAAAAAAAAAAAAAAAAAAAAAAAAAAAAAAAAAAAAAAAAAAAAAAAAAABSC4".to_owned();
        self.strkey == zero_account || self.strkey == zero_contract
    }
}

impl Clone for Address {
    fn clone(&self) -> (r: Self)
        ensures
            r == *self,
    {
        Address { strkey: self.strkey.clone() }
    }
}

impl PartialEq for Address {
    fn eq(&self, other: &Self) -> (r: bool) {
        self.strkey == other.strkey
    }
}

impl vstd::std_specs::cmp::PartialEqSpecImpl for Address {
    open spec fn obeys_eq_spec() -> bool {
        true
    }

    open spec fn eq_spec(&self, other: &Address) -> bool {
        self@ == other@
    }
}

impl Eq for Address {}

} // verus!
