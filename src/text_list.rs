use vstd::prelude::*;

verus! {

/// What std's `Debug` formatting writes for a string: the quoted, escaped text.
pub uninterp spec fn debug_quoted(s: Seq<char>) -> Seq<char>;

/// Relies on `format!("{:?}", s)` for a `str`: the quoted, escaped form of the
/// text, which depends on the text alone.
#[verifier::external_body]
fn debug_string(s: &str) -> (r: String)
    ensures
        r@ == debug_quoted(s@),
{
    format!("{:?}", s)
}

/// The items of a list, quoted and separated by `, `.
pub open spec fn joined_quoted(items: Seq<Seq<char>>) -> Seq<char>
    decreases items.len(),
{
    if items.len() == 0 {
        Seq::empty()
    } else if items.len() == 1 {
        debug_quoted(items[0])
    } else {
        joined_quoted(items.drop_last()) + ", "@ + debug_quoted(items.last())
    }
}

/// A list of strings as `Debug` writes a list: `[` items `]`.
pub open spec fn list_text(items: Seq<Seq<char>>) -> Seq<char> {
    "["@ + joined_quoted(items) + "]"@
}

/// A string-valued constraint: the accepted values and an optional preferred one.
pub struct ConstrainString {
    pub values: Vec<String>,
    pub ideal: Option<String>,
}

impl ConstrainString {
    /// The values that the constraint lists, the preferred one first.
    pub open spec fn items(self) -> Seq<Seq<char>> {
        let vs = self.values@.map_values(|v: String| v@);
        match self.ideal {
            Some(i) => seq![i@] + vs,
            None => vs,
        }
    }

    /// The constraint as a list of quoted strings, the preferred value first.
    pub fn into_caps_string(self) -> (r: String)
        ensures
            r@ == list_text(self.items()),
    {
        let ghost items = self.items();
        let mut values = self.values;
        if let Some(ideal) = self.ideal {
            values.insert(0, ideal);
        }
        assert(values@.map_values(|v: String| v@) =~= items);
        let mut s = String::from_str("[");
        let mut i: usize = 0;
        while i < values.len()
            invariant
                i <= values@.len(),
                items == values@.map_values(|v: String| v@),
                s@ == "["@ + joined_quoted(items.take(i as int)),
            decreases values@.len() - i,
        {
            let q = debug_string(values[i].as_str());
            if i > 0 {
                s.append(", ");
            }
            s.append(q.as_str());
            assert(items.take(i as int + 1).drop_last() =~= items.take(i as int));
            i = i + 1;
        }
        assert(items.take(values@.len() as int) =~= items);
        s.append("]");
        s
    }
}

} // verus!
