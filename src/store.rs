//! Addresses and keys of the external configuration and status store, and
//! the per-host schema naming it uses.

use vstd::prelude::*;
use crate::text::push_text;

verus! {

/// Base address of the store.
pub const SUPABASE_URL: &'static str = "https://ncxowprkehliisvnpmlt.supabase.co";

/// Public (anonymous) key of the store, safe to ship in the application.
pub const SUPABASE_ANON_KEY: &'static str = "your-anon-key";

/// Service key of the store, which allows writes.
pub const SUPABASE_SERVICE_KEY: &'static str = "your-service-key";

/// Base address of the store.
pub fn get_supabase_url() -> (r: String)
    ensures
        r@ == SUPABASE_URL@,
{
    String::from_str(SUPABASE_URL)
}

/// Public key of the store.
pub fn get_supabase_key() -> (r: String)
    ensures
        r@ == SUPABASE_ANON_KEY@,
{
    String::from_str(SUPABASE_ANON_KEY)
}

/// Service key handed to the backup service (write access).
pub fn get_supabase_service_key() -> (r: String)
    ensures
        r@ == SUPABASE_SERVICE_KEY@,
{
    String::from_str(SUPABASE_SERVICE_KEY)
}

/// Base address of the store, for the other components.
pub fn get_supabase_url_public() -> (r: String)
    ensures
        r@ == SUPABASE_URL@,
{
    get_supabase_url()
}

/// Public key of the store, for the other components.
pub fn get_supabase_anon_key() -> (r: String)
    ensures
        r@ == SUPABASE_ANON_KEY@,
{
    get_supabase_key()
}

/// What `str::to_lowercase` returns for a text.
pub uninterp spec fn lower_of(s: Seq<char>) -> Seq<char>;

/// What `char::is_alphanumeric` says of a character.
pub uninterp spec fn alnum_of(c: char) -> bool;

/// ASCII letters and digits.
pub open spec fn is_ascii_alnum(c: char) -> bool {
    ('a' <= c <= 'z') || ('A' <= c <= 'Z') || ('0' <= c <= '9')
}

/// The lowercase of an ASCII character.
pub open spec fn ascii_lower(c: char) -> char {
    if 'A' <= c <= 'Z' {
        ((c as u32) + 32) as char
    } else {
        c
    }
}

/// Every character is ASCII.
pub open spec fn all_ascii(s: Seq<char>) -> bool {
    forall|i: int| 0 <= i < s.len() ==> (#[trigger] s[i]) as u32 <= 127
}

/// Relies on `str::to_lowercase`: the result depends on the text alone, and
/// ASCII text is lowered letter by letter.
#[verifier::external_body]
fn lowercase(s: &str) -> (r: String)
    ensures
        r@ == lower_of(s@),
        all_ascii(s@) ==> r@ == s@.map_values(|c: char| ascii_lower(c)),
{
    s.to_lowercase()
}

/// Relies on `char::is_alphanumeric`: the answer depends on the character
/// alone, and among ASCII characters exactly letters and digits qualify.
#[verifier::external_body]
fn is_alphanumeric(c: char) -> (r: bool)
    ensures
        r == alnum_of(c),
        (c as u32) <= 127 ==> (r <==> is_ascii_alnum(c)),
{
    c.is_alphanumeric()
}

/// A schema character: alphanumerics and `_` stay, anything else becomes `_`.
pub open spec fn schema_char(c: char) -> char {
    if alnum_of(c) || c == '_' {
        c
    } else {
        '_'
    }
}

/// A schema character of an ASCII name: letters lowered, digits and `_`
/// kept, anything else `_`.
pub open spec fn ascii_schema_char(c: char) -> char {
    if is_ascii_alnum(c) || c == '_' {
        ascii_lower(c)
    } else {
        '_'
    }
}

/// The schema name of an already lowered host name.
pub open spec fn schema_of_lowered(s: Seq<char>) -> Seq<char> {
    s.map_values(|c: char| schema_char(c))
}

/// Maps an already lowered host name to a valid schema name.
pub fn schema_from_lowered(lowered: &str) -> (r: String)
    ensures
        r@ == schema_of_lowered(lowered@),
        forall|i: int|
            0 <= i < lowered@.len() && (lowered@[i] as u32) <= 127 ==> r@[i] == (if is_ascii_alnum(
                lowered@[i],
            ) || lowered@[i] == '_' {
                lowered@[i]
            } else {
                '_'
            }),
{
    let n = lowered.unicode_len();
    let mut out = String::new();
    let mut i: usize = 0;
    while i < n
        invariant
            n == lowered@.len(),
            i <= n,
            out@ == schema_of_lowered(lowered@.subrange(0, i as int)),
            forall|j: int|
                0 <= j < i && (lowered@[j] as u32) <= 127 ==> (is_ascii_alnum(lowered@[j]) <==> alnum_of(
                    lowered@[j],
                )),
        decreases n - i,
    {
        let c = lowered.get_char(i);
        let alnum = is_alphanumeric(c);
        if alnum || c == '_' {
            push_text(&mut out, lowered.substring_char(i, i + 1));
        } else {
            push_text(&mut out, "_");
            proof {
                reveal_strlit("_");
            }
        }
        assert(out@ =~= schema_of_lowered(lowered@.subrange(0, i + 1)));
        i = i + 1;
    }
    assert(lowered@.subrange(0, n as int) =~= lowered@);
    assert forall|j: int|
        0 <= j < n && (lowered@[j] as u32) <= 127 implies out@[j] == (if is_ascii_alnum(lowered@[j])
        || lowered@[j] == '_' {
        lowered@[j]
    } else {
        '_'
    }) by {
        assert(out@[j] == schema_char(lowered@[j]));
    }
    out
}

/// Converts a host name into a valid per-host schema name of the store:
/// lowercased, with every character but alphanumerics and `_` replaced by `_`.
pub fn pi_name_to_schema(pi_name: &str) -> (r: String)
    ensures
        r@ == schema_of_lowered(lower_of(pi_name@)),
        all_ascii(pi_name@) ==> r@ == pi_name@.map_values(|c: char| ascii_schema_char(c)),
{
    let lowered = lowercase(pi_name);
    let r = schema_from_lowered(lowered.as_str());
    proof {
        if all_ascii(pi_name@) {
            assert forall|i: int| 0 <= i < pi_name@.len() implies r@[i] == ascii_schema_char(pi_name@[i]) by {
                let c = pi_name@[i];
                let l = ascii_lower(c);
                assert(lowered@[i] == l);
                assert((l as u32) <= 127);
                assert(is_ascii_alnum(l) == is_ascii_alnum(c));
                assert(l == '_' <==> c == '_');
            }
            assert(r@ =~= pi_name@.map_values(|c: char| ascii_schema_char(c)));
        }
    }
    r
}

/// The schemas already initialized in this process, so that each host's
/// schema is set up once. A schema counts as initialized after the first
/// attempt, whatever the store answered (it may already exist).
pub struct SchemaRegistry {
    names: Vec<String>,
}

impl View for SchemaRegistry {
    type V = Set<Seq<char>>;

    closed spec fn view(&self) -> Set<Seq<char>> {
        self.names@.map_values(|n: String| n@).to_set()
    }
}

impl SchemaRegistry {
    /// No schema initialized yet.
    pub fn new() -> (r: SchemaRegistry)
        ensures
            r@ == Set::<Seq<char>>::empty(),
    {
        let r = SchemaRegistry { names: Vec::new() };
        assert(r.names@.map_values(|n: String| n@) =~= Seq::<Seq<char>>::empty());
        assert(r@ =~= Set::<Seq<char>>::empty());
        r
    }

    /// True when the schema was already initialized.
    pub fn contains(&self, schema: &str) -> (r: bool)
        ensures
            r == self@.contains(schema@),
    {
        let ghost ns = self.names@.map_values(|n: String| n@);
        let mut i: usize = 0;
        while i < self.names.len()
            invariant
                i <= self.names@.len(),
                ns == self.names@.map_values(|n: String| n@),
                forall|j: int| 0 <= j < i ==> ns[j] != schema@,
            decreases self.names@.len() - i,
        {
            if crate::text::same_text(self.names[i].as_str(), schema) {
                assert(ns[i as int] == schema@);
                return true;
            }
            i = i + 1;
        }
        proof {
            if ns.to_set().contains(schema@) {
                let k = choose|k: int| 0 <= k < ns.len() && ns[k] == schema@;
                assert(ns[k] != schema@);
            }
        }
        false
    }

    /// Records an initialization attempt of `schema`. Returns whether the
    /// store has to be asked (false when it already was).
    pub fn begin_init(&mut self, schema: &str) -> (r: bool)
        ensures
            r == !old(self)@.contains(schema@),
            final(self)@ == old(self)@.insert(schema@),
    {
        if self.contains(schema) {
            assert(self@.insert(schema@) =~= self@);
            return false;
        }
        let ghost before = self.names@.map_values(|n: String| n@);
        self.names.push(String::from_str(schema));
        assert(self.names@.map_values(|n: String| n@) =~= before.push(schema@));
        proof {
            before.lemma_push_to_set_commute(schema@);
        }
        true
    }
}

} // verus!
