use vstd::prelude::*;

verus! {

/// An account or contract address, held as its textual strkey form.
#[derive(Debug)]
pub struct Address {
    text: String,
}

impl View for Address {
    type V = Seq<char>;

    closed spec fn view(&self) -> Seq<char> {
        self.text@
    }
}

impl Address {
    /// Builds an address from its strkey text.
    pub fn new(text: &str) -> (r: Address)
        ensures
            r@ == text@,
    {
        Address { text: text.to_string() }
    }

    /// Whether two addresses denote the same account.
    pub fn same_as(&self, other: &Address) -> (r: bool)
        ensures
            r == (self@ == other@),
    {
        self.text == other.text
    }

    /// The address's strkey text.
    pub fn as_str(&self) -> (r: &str)
        ensures
            r@ == self@,
    {
        self.text.as_str()
    }
}

impl Clone for Address {
    fn clone(&self) -> (r: Self)
        ensures
            r == *self,
    {
        Address { text: self.text.clone() }
    }
}

impl PartialEq for Address {
    fn eq(&self, other: &Self) -> (r: bool) {
        self.text == other.text
    }
}

impl Eq for Address {}

impl vstd::std_specs::cmp::PartialEqSpecImpl for Address {
    open spec fn obeys_eq_spec() -> bool {
        true
    }

    open spec fn eq_spec(&self, other: &Address) -> bool {
        self@ == other@
    }
}

/// A short identifier such as a role name, a pause scope or a status code.
#[derive(Debug)]
pub struct Symbol {
    text: String,
}

impl View for Symbol {
    type V = Seq<char>;

    closed spec fn view(&self) -> Seq<char> {
        self.text@
    }
}

impl Symbol {
    /// Builds a symbol from its text.
    pub fn new(text: &str) -> (r: Symbol)
        ensures
            r@ == text@,
    {
        Symbol { text: text.to_string() }
    }

    /// Whether two symbols are the same.
    pub fn same_as(&self, other: &Symbol) -> (r: bool)
        ensures
            r == (self@ == other@),
    {
        self.text == other.text
    }

    /// The symbol's text.
    pub fn as_str(&self) -> (r: &str)
        ensures
            r@ == self@,
    {
        self.text.as_str()
    }
}

impl Clone for Symbol {
    fn clone(&self) -> (r: Self)
        ensures
            r == *self,
    {
        Symbol { text: self.text.clone() }
    }
}

impl PartialEq for Symbol {
    fn eq(&self, other: &Self) -> (r: bool) {
        self.text == other.text
    }
}

impl Eq for Symbol {}

impl vstd::std_specs::cmp::PartialEqSpecImpl for Symbol {
    open spec fn obeys_eq_spec() -> bool {
        true
    }

    open spec fn eq_spec(&self, other: &Symbol) -> bool {
        self@ == other@
    }
}

/// A fixed 32-byte value, such as a hash committing to off-chain data.
#[derive(Clone, Copy, Debug, PartialEq, Eq)]
pub struct Hash32 {
    pub bytes: [u8; 32],
}

impl Hash32 {
    /// Wraps 32 bytes.
    pub fn from_array(bytes: [u8; 32]) -> (r: Hash32)
        ensures
            r.bytes == bytes,
    {
        Hash32 { bytes }
    }
}

} // verus!
