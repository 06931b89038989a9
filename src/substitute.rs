use vstd::prelude::*;

use crate::chars::{chars_of, string_of};
use crate::replace::{lemma_replace_absent, occurs, replace_chars, replace_spec};

verus! {

/// One entry of a colors table: its key, and its value where that is a string.
pub struct ColorEntry {
    pub key: String,
    pub value: Option<String>,
}

impl View for ColorEntry {
    type V = (Seq<char>, Option<Seq<char>>);

    open spec fn view(&self) -> (Seq<char>, Option<Seq<char>>) {
        (self.key@, opt_view(self.value))
    }
}

/// The text of an optional string.
pub open spec fn opt_view(v: Option<String>) -> Option<Seq<char>> {
    match v {
        Some(s) => Some(s@),
        None => None,
    }
}

impl ColorEntry {
    pub fn new(key: String, value: Option<String>) -> (r: ColorEntry)
        ensures
            r.key == key,
            r.value == value,
    {
        ColorEntry { key, value }
    }
}

pub open spec fn entries_view(e: Seq<ColorEntry>) -> Seq<(Seq<char>, Option<Seq<char>>)> {
    e.map_values(|c: ColorEntry| c@)
}

/// The token that stands for `key` in a template.
pub open spec fn placeholder(key: Seq<char>) -> Seq<char> {
    seq!['$'] + key
}

/// One entry applied to `t`: a string value replaces every placeholder of
/// its key; any other value changes nothing.
pub open spec fn apply_entry(t: Seq<char>, e: (Seq<char>, Option<Seq<char>>)) -> Seq<char> {
    match e.1 {
        Some(v) => replace_spec(t, placeholder(e.0), v),
        None => t,
    }
}

/// The entries of `cs` applied to `t` one after another, first to last.
pub open spec fn substitute_spec(t: Seq<char>, cs: Seq<(Seq<char>, Option<Seq<char>>)>) -> Seq<char>
    decreases cs.len(),
{
    if cs.len() == 0 {
        t
    } else {
        apply_entry(substitute_spec(t, cs.drop_last()), cs.last())
    }
}

/// Whether no placeholder of a key with a string value in `cs` occurs in `t`.
pub open spec fn free_of_placeholders(t: Seq<char>, cs: Seq<(Seq<char>, Option<Seq<char>>)>) -> bool {
    forall|j: int| 0 <= j < cs.len() && cs[j].1 is Some ==> !occurs(t, #[trigger] placeholder(cs[j].0))
}

fn placeholder_chars(key: &str) -> (r: Vec<char>)
    ensures
        r@ == placeholder(key@),
{
    let kc = chars_of(key);
    let mut r: Vec<char> = Vec::new();
    r.push('$');
    let mut i: usize = 0;
    while i < kc.len()
        invariant
            i <= kc@.len(),
            r@ == seq!['$'] + kc@.subrange(0, i as int),
        decreases kc@.len() - i,
    {
        r.push(kc[i]);
        i += 1;
        assert(r@ =~= seq!['$'] + kc@.subrange(0, i as int));
    }
    assert(kc@.subrange(0, kc@.len() as int) =~= kc@);
    r
}

/// The template with the entries of `colors` applied in order: each string
/// value replaces every `$key` of its key; other values are skipped.
pub fn apply_colors(template: &str, colors: &Vec<ColorEntry>) -> (r: String)
    ensures
        r@ == substitute_spec(template@, entries_view(colors@)),
{
    let mut content = chars_of(template);
    let ghost cs = entries_view(colors@);
    let mut i: usize = 0;
    assert(cs.subrange(0, 0) =~= Seq::<(Seq<char>, Option<Seq<char>>)>::empty());
    while i < colors.len()
        invariant
            cs == entries_view(colors@),
            i <= colors@.len(),
            content@ == substitute_spec(template@, cs.subrange(0, i as int)),
        decreases colors@.len() - i,
    {
        let entry = &colors[i];
        assert(cs.subrange(0, i + 1).drop_last() =~= cs.subrange(0, i as int));
        assert(cs.subrange(0, i + 1).last() == entry@);
        match &entry.value {
            Some(v) => {
                let tok = placeholder_chars(entry.key.as_str());
                let vc = chars_of(v.as_str());
                content = replace_chars(&content, &tok, &vc);
            },
            None => {},
        }
        i += 1;
    }
    assert(cs.subrange(0, cs.len() as int) =~= cs);
    string_of(&content)
}

/// Text that holds no placeholder of a key with a string value comes back unchanged.
pub proof fn lemma_unchanged_without_placeholders(t: Seq<char>, cs: Seq<(Seq<char>, Option<Seq<char>>)>)
    requires
        free_of_placeholders(t, cs),
    ensures
        substitute_spec(t, cs) == t,
    decreases cs.len(),
{
    if cs.len() > 0 {
        let init = cs.drop_last();
        assert forall|j: int| 0 <= j < init.len() && init[j].1 is Some implies !occurs(t, #[trigger] placeholder(init[j].0)) by {
            assert(init[j] == cs[j]);
        }
        lemma_unchanged_without_placeholders(t, init);
        let e = cs.last();
        if e.1 is Some {
            assert(cs[cs.len() - 1] == e);
            assert(!occurs(t, placeholder(e.0)));
            lemma_replace_absent(t, placeholder(e.0), e.1->0);
        }
    }
}

/// Substituting a second time with the same colors changes nothing, when the
/// first result holds no placeholder of a key with a string value.
pub proof fn lemma_resubstitute_stable(t: Seq<char>, cs: Seq<(Seq<char>, Option<Seq<char>>)>)
    requires
        free_of_placeholders(substitute_spec(t, cs), cs),
    ensures
        substitute_spec(substitute_spec(t, cs), cs) == substitute_spec(t, cs),
{
    lemma_unchanged_without_placeholders(substitute_spec(t, cs), cs);
}

/// An entry whose value is not a string has no effect on the result.
pub proof fn lemma_non_string_ignored(t: Seq<char>, cs: Seq<(Seq<char>, Option<Seq<char>>)>, j: int)
    requires
        0 <= j < cs.len(),
        cs[j].1 is None,
    ensures
        substitute_spec(t, cs.remove(j)) == substitute_spec(t, cs),
    decreases cs.len(),
{
    if j == cs.len() - 1 {
        assert(cs.remove(j) =~= cs.drop_last());
    } else {
        let init = cs.drop_last();
        lemma_non_string_ignored(t, init, j);
        assert(cs.remove(j).drop_last() =~= init.remove(j));
        assert(cs.remove(j).last() == cs.last());
    }
}

} // verus!
