use vstd::prelude::*;

verus! {

/// A character that may start an identifier: an ASCII letter or `_`.
pub open spec fn is_ident_start(c: char) -> bool {
    ('a' <= c && c <= 'z') || ('A' <= c && c <= 'Z') || c == '_'
}

/// A character that may follow the first one: an ASCII letter or digit, `_` or `-`.
pub open spec fn is_ident_continue(c: char) -> bool {
    is_ident_start(c) || ('0' <= c && c <= '9') || c == '-'
}

/// A variable name: non-empty, starting with a letter or `_`, then letters,
/// digits, `_` and `-`.
pub open spec fn is_valid_identifier(s: Seq<char>) -> bool {
    &&& s.len() > 0
    &&& is_ident_start(s[0])
    &&& forall|i: int| 1 <= i < s.len() ==> is_ident_continue(#[trigger] s[i])
}

fn ident_start(c: char) -> (r: bool)
    ensures
        r == is_ident_start(c),
{
    ('a' <= c && c <= 'z') || ('A' <= c && c <= 'Z') || c == '_'
}

fn ident_continue(c: char) -> (r: bool)
    ensures
        r == is_ident_continue(c),
{
    ident_start(c) || ('0' <= c && c <= '9') || c == '-'
}

/// A validated variable name. Once built it never changes.
#[derive(Debug, PartialEq, Eq, Hash)]
pub struct Identifier {
    name: String,
}

impl View for Identifier {
    type V = Seq<char>;

    closed spec fn view(&self) -> Seq<char> {
        self.name@
    }
}

impl Clone for Identifier {
    fn clone(&self) -> (r: Identifier)
        ensures
            r == *self,
    {
        proof {
            use_type_invariant(self);
        }
        Identifier { name: self.name.clone() }
    }
}

impl Identifier {
    #[verifier::type_invariant]
    closed spec fn inv(self) -> bool {
        is_valid_identifier(self.name@)
    }

    /// Builds an identifier from `name`, or `None` where `name` is not a valid
    /// variable name.
    pub fn new(name: &str) -> (r: Option<Identifier>)
        ensures
            r is Some <==> is_valid_identifier(name@),
            r matches Some(id) ==> id@ == name@,
    {
        let len = name.unicode_len();
        if len == 0 {
            return None;
        }
        if !ident_start(name.get_char(0)) {
            return None;
        }
        let mut i: usize = 1;
        while i < len
            invariant
                1 <= i <= len,
                len == name@.len(),
                is_ident_start(name@[0]),
                forall|j: int| 1 <= j < i ==> is_ident_continue(#[trigger] name@[j]),
            decreases len - i,
        {
            if !ident_continue(name.get_char(i)) {
                return None;
            }
            i += 1;
        }
        Some(Identifier { name: String::from_str(name) })
    }

    /// The name, as text.
    pub fn as_str(&self) -> (r: &str)
        ensures
            r@ == self@,
            is_valid_identifier(r@),
    {
        proof {
            use_type_invariant(self);
        }
        self.name.as_str()
    }
}

} // verus!
