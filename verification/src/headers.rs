//! The response headers that the client reads.

use vstd::prelude::*;

use crate::text::{ascii_lower, chars_eq, chars_of, to_ascii_lower};

verus! {

/// Response headers in the order received: each name in lower case, each
/// value as text, or `None` when the value is not visible ASCII.
#[derive(Debug, Clone)]
pub struct HeaderList {
    pub entries: Vec<(String, Option<String>)>,
}

/// The value of the first header named `name`, if there is one.
pub open spec fn header_lookup(entries: Seq<(String, Option<String>)>, name: Seq<char>) -> Option<
    Option<Seq<char>>,
>
    decreases entries.len(),
{
    if entries.len() == 0 {
        None
    } else if entries[0].0@ == name {
        Some(
            match entries[0].1 {
                Some(v) => Some(v@),
                None => None,
            },
        )
    } else {
        header_lookup(entries.drop_first(), name)
    }
}

/// The text of the first header named `name`, when it is text.
pub open spec fn first_text(entries: Seq<(String, Option<String>)>, name: Seq<char>) -> Option<Seq<char>> {
    match header_lookup(entries, name) {
        Some(Some(v)) => Some(v),
        _ => None,
    }
}

/// The (name, value) views of `v`.
pub open spec fn pair_views(v: Seq<(String, String)>) -> Seq<(Seq<char>, Seq<char>)> {
    v.map_values(|p: (String, String)| (p.0@, p.1@))
}

impl HeaderList {
    /// The value of the first header whose name is `name`, compared without
    /// regard to ASCII case: `None` when there is no such header,
    /// `Some(None)` when its value is not text.
    pub fn get(&self, name: &str) -> (r: Option<Option<String>>)
        ensures
            match header_lookup(self.entries@, ascii_lower(name@)) {
                None => r is None,
                Some(None) => r matches Some(None),
                Some(Some(v)) => r matches Some(Some(s)) && s@ == v,
            },
    {
        let wanted = to_ascii_lower(chars_of(name).as_slice());
        let mut i: usize = 0;
        assert(self.entries@.skip(0) =~= self.entries@);
        while i < self.entries.len()
            invariant
                i <= self.entries@.len(),
                wanted@ == ascii_lower(name@),
                header_lookup(self.entries@.skip(i as int), wanted@) == header_lookup(
                    self.entries@,
                    wanted@,
                ),
            decreases self.entries@.len() - i,
        {
            let entry = &self.entries[i];
            assert(self.entries@.skip(i as int)[0] == self.entries@[i as int]);
            if chars_eq(chars_of(entry.0.as_str()).as_slice(), wanted.as_slice()) {
                return match &entry.1 {
                    Some(v) => Some(Some(v.clone())),
                    None => Some(None),
                };
            }
            assert(self.entries@.skip(i as int).drop_first() =~= self.entries@.skip(i + 1));
            i = i + 1;
        }
        None
    }

    /// The value of the first header named `name` (in lower case), when it
    /// is text.
    pub fn text(&self, name: &str) -> (r: Option<String>)
        requires
            ascii_lower(name@) == name@,
        ensures
            match first_text(self.entries@, name@) {
                Some(t) => r matches Some(v) && v@ == t,
                None => r is None,
            },
    {
        match self.get(name) {
            Some(Some(v)) => Some(v),
            _ => None,
        }
    }
}

} // verus!
