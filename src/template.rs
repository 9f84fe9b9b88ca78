//! Template variables: `{{NAME}}` placeholders (upper-case letters, digits
//! and `_`) in configuration text are replaced by their values; an unknown
//! name is replaced by nothing.

use vstd::prelude::*;
use crate::pattern::{captures_of, captures_view, regex_captures, regex_split, split_by};
use crate::text::{push_text, same_text};

verus! {

/// The placeholder pattern; group 1 is the variable's name.
pub const PLACEHOLDER_PATTERN: &'static str = r"\{\{([A-Z_0-9]+)\}\}";

/// The variables, as a map from name to value.
pub open spec fn entries_map(es: Seq<(Seq<char>, Seq<char>)>) -> Map<Seq<char>, Seq<char>>
    decreases es.len(),
{
    if es.len() == 0 {
        Map::empty()
    } else {
        entries_map(es.drop_last()).insert(es.last().0, es.last().1)
    }
}

/// The value a placeholder is replaced by.
pub open spec fn value_of(m: Map<Seq<char>, Seq<char>>, name: Seq<char>) -> Seq<char> {
    if m.contains_key(name) {
        m[name]
    } else {
        Seq::empty()
    }
}

/// The pieces between placeholders, joined by the placeholders' values.
pub open spec fn fill(pieces: Seq<Seq<char>>, names: Seq<Seq<char>>, m: Map<Seq<char>, Seq<char>>) -> Seq<char>
    decreases names.len(),
{
    if names.len() == 0 || pieces.len() == 0 {
        if pieces.len() == 0 {
            Seq::empty()
        } else {
            pieces[0]
        }
    } else {
        fill(pieces.drop_last(), names.drop_last(), m) + value_of(m, names.last()) + pieces.last()
    }
}

/// Group 1 of a match, empty when absent.
pub open spec fn group1(row: Seq<Option<Seq<char>>>) -> Seq<char> {
    if row.len() > 1 && row[1] is Some {
        row[1]->0
    } else {
        Seq::empty()
    }
}

/// The text with every placeholder replaced (unchanged should the pattern
/// not apply).
pub open spec fn replaced(m: Map<Seq<char>, Seq<char>>, t: Seq<char>) -> Seq<char> {
    match (regex_split(PLACEHOLDER_PATTERN@, t), regex_captures(PLACEHOLDER_PATTERN@, t)) {
        (Some(ps), Some(cs)) => if ps.len() == cs.len() + 1 {
            fill(ps, cs.map_values(|row: Seq<Option<Seq<char>>>| group1(row)), m)
        } else {
            t
        },
        _ => t,
    }
}

/// Variables available to the templates.
pub struct TemplateVars {
    vars: Vec<(String, String)>,
}

impl View for TemplateVars {
    type V = Map<Seq<char>, Seq<char>>;

    closed spec fn view(&self) -> Map<Seq<char>, Seq<char>> {
        entries_map(self.vars@.map_values(|e: (String, String)| (e.0@, e.1@)))
    }
}

impl TemplateVars {
    /// No variables.
    pub fn new() -> (r: TemplateVars)
        ensures
            r@ == Map::<Seq<char>, Seq<char>>::empty(),
    {
        let r = TemplateVars { vars: Vec::new() };
        assert(r.vars@.map_values(|e: (String, String)| (e.0@, e.1@)) =~= Seq::empty());
        r
    }

    /// Sets a variable, replacing an earlier value.
    pub fn set(&mut self, key: &str, value: &str)
        ensures
            final(self)@ == old(self)@.insert(key@, value@),
    {
        let ghost old_es = self.vars@.map_values(|e: (String, String)| (e.0@, e.1@));
        self.vars.push((String::from_str(key), String::from_str(value)));
        let ghost es = self.vars@.map_values(|e: (String, String)| (e.0@, e.1@));
        assert(es.drop_last() =~= old_es);
    }

    /// The value of a variable, if set.
    pub fn get(&self, key: &str) -> (r: Option<&str>)
        ensures
            self@.contains_key(key@) ==> r is Some && r->0@ == self@[key@],
            !self@.contains_key(key@) ==> r is None,
    {
        let ghost es = self.vars@.map_values(|e: (String, String)| (e.0@, e.1@));
        let mut i: usize = self.vars.len();
        assert(es.subrange(0, i as int) =~= es);
        while i > 0
            invariant
                i <= self.vars@.len(),
                es == self.vars@.map_values(|e: (String, String)| (e.0@, e.1@)),
                self@ == entries_map(es),
                entries_map(es).contains_key(key@) == entries_map(es.subrange(0, i as int)).contains_key(key@),
                entries_map(es.subrange(0, i as int)).contains_key(key@) ==> entries_map(es)[key@]
                    == entries_map(es.subrange(0, i as int))[key@],
            decreases i,
        {
            let ghost pre = es.subrange(0, i as int);
            assert(pre.drop_last() =~= es.subrange(0, i - 1));
            let entry = &self.vars[i - 1];
            if same_text(entry.0.as_str(), key) {
                return Some(entry.1.as_str());
            }
            i = i - 1;
        }
        None
    }

    /// Joins the pieces between placeholders with the values of the
    /// placeholders' names (nothing for an unknown name).
    pub fn fill_template(&self, pieces: &Vec<String>, names: &Vec<String>) -> (r: String)
        requires
            pieces@.len() == names@.len() + 1,
        ensures
            r@ == fill(pieces@.map_values(|s: String| s@), names@.map_values(|s: String| s@), self@),
    {
        let ghost ps = pieces@.map_values(|s: String| s@);
        let ghost ns = names@.map_values(|s: String| s@);
        let mut out = String::from_str(pieces[0].as_str());
        let mut k: usize = 0;
        while k < names.len()
            invariant
                pieces@.len() == names@.len() + 1,
                k <= names@.len(),
                ps == pieces@.map_values(|s: String| s@),
                ns == names@.map_values(|s: String| s@),
                out@ == fill(ps.subrange(0, k + 1), ns.subrange(0, k as int), self@),
            decreases names@.len() - k,
        {
            match self.get(names[k].as_str()) {
                Some(v) => push_text(&mut out, v),
                None => {},
            }
            push_text(&mut out, pieces[k + 1].as_str());
            let ghost p2 = ps.subrange(0, k + 2);
            let ghost n2 = ns.subrange(0, k + 1);
            assert(p2.drop_last() =~= ps.subrange(0, k + 1));
            assert(n2.drop_last() =~= ns.subrange(0, k as int));
            k = k + 1;
        }
        assert(ps.subrange(0, k + 1) =~= ps);
        assert(ns.subrange(0, k as int) =~= ns);
        out
    }

    /// Replaces every `{{NAME}}` placeholder of the template.
    pub fn replace(&self, template: &str) -> (r: String)
        ensures
            r@ == replaced(self@, template@),
    {
        let pieces = split_by(PLACEHOLDER_PATTERN, template);
        let caps = captures_of(PLACEHOLDER_PATTERN, template);
        match (pieces, caps) {
            (Some(ps), Some(cs)) => {
                if cs.len() < ps.len() && ps.len() - cs.len() == 1 {
                    let names = group1_names(&cs);
                    proof {
                        assert(names@.map_values(|s: String| s@) =~= captures_view(cs@).map_values(
                            |row: Seq<Option<Seq<char>>>| group1(row),
                        ));
                    }
                    self.fill_template(&ps, &names)
                } else {
                    String::from_str(template)
                }
            },
            _ => String::from_str(template),
        }
    }
}

/// Group 1 of every match.
fn group1_names(cs: &Vec<Vec<Option<String>>>) -> (r: Vec<String>)
    ensures
        r@.len() == cs@.len(),
        forall|i: int| 0 <= i < cs@.len() ==> (#[trigger] r@[i])@ == group1(captures_view(cs@)[i]),
{
    let mut r: Vec<String> = Vec::new();
    let mut i: usize = 0;
    while i < cs.len()
        invariant
            i <= cs@.len(),
            r@.len() == i,
            forall|j: int| 0 <= j < i ==> (#[trigger] r@[j])@ == group1(captures_view(cs@)[j]),
        decreases cs@.len() - i,
    {
        let row = &cs[i];
        let name = if row.len() > 1 {
            match &row[1] {
                Some(s) => String::from_str(s.as_str()),
                None => String::new(),
            }
        } else {
            String::new()
        };
        r.push(name);
        i = i + 1;
    }
    r
}

} // verus!
