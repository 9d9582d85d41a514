use vstd::prelude::*;
use vstd::string::*;

verus! {

/// The view of an optional string annotation.
pub open spec fn opt_view(o: Option<String>) -> Option<Seq<char>> {
    match o {
        Some(s) => Some(s@),
        None => None,
    }
}

/// The class of one role of a column: the shared class, then a single
/// space and the role-specific class; either one alone when the other is
/// absent, and empty when neither is given.
pub open spec fn composed_class(shared: Option<Seq<char>>, specific: Option<Seq<char>>) -> Seq<char> {
    match (shared, specific) {
        (Some(s), Some(c)) => s + seq![' '] + c,
        (Some(s), None) => s,
        (None, Some(c)) => c,
        (None, None) => seq![],
    }
}

/// `base`, then each class of `extra` in order, one space before each
/// class that follows a non-empty class list.
pub open spec fn joined_classes(base: Seq<char>, extra: Seq<Seq<char>>) -> Seq<char>
    decreases extra.len(),
{
    if extra.len() == 0 {
        base
    } else {
        let prefix = joined_classes(base, extra.drop_last());
        if prefix.len() == 0 {
            extra.last()
        } else {
            prefix + seq![' '] + extra.last()
        }
    }
}

/// The views of a list of strings.
pub open spec fn string_views(v: Seq<String>) -> Seq<Seq<char>> {
    v.map_values(|s: String| s@)
}

/// Appends each class of `extra` to `base` as `joined_classes` says.
pub fn join_classes(base: &String, extra: &Vec<String>) -> (r: String)
    ensures
        r@ == joined_classes(base@, string_views(extra@)),
{
    let mut out = base.clone();
    let mut i: usize = 0;
    while i < extra.len()
        invariant
            i <= extra@.len(),
            out@ == joined_classes(base@, string_views(extra@.take(i as int))),
        decreases extra@.len() - i,
    {
        proof {
            assert(string_views(extra@.take(i as int + 1)).drop_last() =~= string_views(
                extra@.take(i as int),
            ));
            reveal_strlit(" ");
        }
        if !out.as_str().is_empty() {
            out.append(" ");
        }
        out.append(extra[i].as_str());
        i = i + 1;
    }
    proof {
        assert(extra@.take(extra@.len() as int) =~= extra@);
    }
    out
}

/// The annotations written on one field of a record type.
pub struct TableDataField {
    /// The field's name; `None` for a positional field.
    pub ident: Option<String>,
    /// The field is left out of the table.
    pub skip: bool,
    /// A custom cell renderer, by name.
    pub renderer: Option<String>,
    /// Fractional digits to show for a numeric value.
    pub precision: Option<i64>,
    /// A class shared by the head cell and the body cells.
    pub class: Option<String>,
    /// A class for the body cells only.
    pub cell_class: Option<String>,
    /// A class for the head cell only.
    pub head_class: Option<String>,
    /// An explicit column title.
    pub title: Option<String>,
}

/// Joins `shared` and `specific` as `composed_class` says.
pub fn compose_class(shared: &Option<String>, specific: &Option<String>) -> (r: String)
    ensures
        r@ == composed_class(opt_view(*shared), opt_view(*specific)),
{
    match (shared, specific) {
        (Some(s), Some(c)) => {
            let mut out = s.clone();
            out.append(" ");
            out.append(c.as_str());
            proof {
                reveal_strlit(" ");
            }
            out
        },
        (Some(s), None) => s.clone(),
        (None, Some(c)) => c.clone(),
        (None, None) => String::new(),
    }
}

impl TableDataField {
    /// The class of this field's body cells.
    pub fn cell_class(&self) -> (r: String)
        ensures
            r@ == composed_class(opt_view(self.class), opt_view(self.cell_class)),
    {
        compose_class(&self.class, &self.cell_class)
    }

    /// The class of this field's head cell.
    pub fn head_class(&self) -> (r: String)
        ensures
            r@ == composed_class(opt_view(self.class), opt_view(self.head_class)),
    {
        compose_class(&self.class, &self.head_class)
    }
}

} // verus!
