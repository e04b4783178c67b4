//! The parameter map a request carries: parameter names mapped to optional
//! string values, kept in insertion order.  An absent value means the key is
//! sent with an empty/null value, not that it is omitted; the transport
//! serializes the whole map as a JSON body, or as query parameters for GET
//! requests (dropping absent values there).

use vstd::prelude::*;

verus! {

/// The abstract value of a parameter map: its (name, optional value) pairs
/// in insertion order.
pub type ParamsView = Seq<(Seq<char>, Option<Seq<char>>)>;

/// A request's keyed parameters.
pub struct ParamMap {
    /// The (name, optional value) pairs, in insertion order.
    pub entries: Vec<(String, Option<String>)>,
}

impl View for ParamMap {
    type V = ParamsView;

    open spec fn view(&self) -> ParamsView {
        self.entries.deep_view()
    }
}

impl DeepView for ParamMap {
    type V = ParamsView;

    open spec fn deep_view(&self) -> ParamsView {
        self.view()
    }
}

impl ParamMap {
    /// An empty map.
    pub fn new() -> (r: ParamMap)
        ensures
            r@ == Seq::<(Seq<char>, Option<Seq<char>>)>::empty(),
    {
        let r = ParamMap { entries: Vec::new() };
        proof {
            assert(r@ =~= Seq::<(Seq<char>, Option<Seq<char>>)>::empty());
        }
        r
    }

    /// Appends one (name, optional value) pair.
    pub fn insert(&mut self, key: &str, value: Option<String>)
        ensures
            final (self)@ == old(self)@.push((key@, value.deep_view())),
    {
        let ghost v = value.deep_view();
        self.entries.push((String::from_str(key), value));
        proof {
            assert(self@ =~= old(self)@.push((key@, v)));
        }
    }

    /// How many pairs the map holds.
    pub fn len(&self) -> (n: usize)
        ensures
            n == self@.len(),
    {
        self.entries.len()
    }
}

} // verus!
