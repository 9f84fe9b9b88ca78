//! Remote shell command text: uploading a document through a here-document,
//! and reading back the exit code that a wrapped command prints.

use vstd::prelude::*;
use crate::text::{occurs_at, push_text, trim_text, trimmed};
use crate::transfer::{find_last, lemma_last_at_unique, last_at, number_of, parse_number};

verus! {

/// Marker after which a wrapped command prints its exit status.
pub const EXIT_CODE_MARKER: &'static str = "EXIT_CODE:";

/// Where the composition document goes on the host.
pub const COMPOSE_PATH: &'static str = "~/media-stack/docker-compose.yml";

/// A character as it stands inside single quotes of the shell: a quote
/// closes, escapes and reopens.
pub open spec fn quote_char(c: char) -> Seq<char> {
    if c == '\'' {
        seq!['\'', '\\', '\'', '\'']
    } else {
        seq![c]
    }
}

/// Every single quote of `s` written as `'\''`.
pub open spec fn escape_quotes(s: Seq<char>) -> Seq<char>
    decreases s.len(),
{
    if s.len() == 0 {
        Seq::empty()
    } else {
        escape_quotes(s.drop_last()) + quote_char(s.last())
    }
}

/// Escapes the single quotes of a text for use inside single quotes.
pub fn escape_single_quotes(s: &str) -> (r: String)
    ensures
        r@ == escape_quotes(s@),
{
    let n = s.unicode_len();
    let mut out = String::new();
    let mut i: usize = 0;
    while i < n
        invariant
            n == s@.len(),
            i <= n,
            out@ == escape_quotes(s@.subrange(0, i as int)),
        decreases n - i,
    {
        let ghost pre = s@.subrange(0, i + 1);
        assert(pre.drop_last() =~= s@.subrange(0, i as int));
        if s.get_char(i) == '\'' {
            push_text(&mut out, "'\\''");
            proof {
                reveal_strlit("'\\''");
            }
            assert(out@ =~= escape_quotes(pre));
        } else {
            push_text(&mut out, s.substring_char(i, i + 1));
            assert(out@ =~= escape_quotes(pre));
        }
        i = i + 1;
    }
    assert(s@.subrange(0, n as int) =~= s@);
    out
}

/// The command that writes `content` (quotes escaped) to `path` through a
/// here-document.
pub open spec fn upload_command_spec(path: Seq<char>, content: Seq<char>) -> Seq<char> {
    "cat > "@ + path + " << 'JELLYSETUP_EOF'\n"@ + escape_quotes(content) + "\nJELLYSETUP_EOF"@
}

/// Builds the command that writes a document to a remote path.
pub fn upload_command(remote_path: &str, content: &str) -> (r: String)
    ensures
        r@ == upload_command_spec(remote_path@, content@),
{
    let escaped = escape_single_quotes(content);
    let mut cmd = String::from_str("cat > ");
    push_text(&mut cmd, remote_path);
    push_text(&mut cmd, " << 'JELLYSETUP_EOF'\n");
    push_text(&mut cmd, escaped.as_str());
    push_text(&mut cmd, "\nJELLYSETUP_EOF");
    cmd
}

/// The command that writes the composition document in place, verbatim.
pub open spec fn compose_write_spec(doc: Seq<char>) -> Seq<char> {
    "cat > "@ + COMPOSE_PATH@ + " << 'EOFCOMPOSE'\n"@ + doc + "\nEOFCOMPOSE"@
}

/// Builds the command that writes the composition document; re-running it
/// is harmless.
pub fn compose_write_command(doc: &str) -> (r: String)
    ensures
        r@ == compose_write_spec(doc@),
{
    let mut cmd = String::from_str("cat > ");
    push_text(&mut cmd, COMPOSE_PATH);
    push_text(&mut cmd, " << 'EOFCOMPOSE'\n");
    push_text(&mut cmd, doc);
    push_text(&mut cmd, "\nEOFCOMPOSE");
    cmd
}

/// A command followed by the printing of its exit status.
pub open spec fn with_exit_code_spec(command: Seq<char>) -> Seq<char> {
    command + "; echo \"EXIT_CODE:$?\""@
}

/// Wraps a command so that its output ends with its exit status.
pub fn with_exit_code(command: &str) -> (r: String)
    ensures
        r@ == with_exit_code_spec(command@),
{
    let mut cmd = String::from_str(command);
    push_text(&mut cmd, "; echo \"EXIT_CODE:$?\"");
    cmd
}

/// A signed decimal that fits in `i32` (an optional `+` or `-`, then digits).
pub open spec fn i32_of(s: Seq<char>) -> Option<i32> {
    if s.len() > 0 && s[0] == '-' {
        match number_of(s.drop_first()) {
            Some(v) => if v <= 2147483648 {
                Some((0 - v) as i32)
            } else {
                None
            },
            None => None,
        }
    } else {
        let t = if s.len() > 0 && s[0] == '+' {
            s.drop_first()
        } else {
            s
        };
        match number_of(t) {
            Some(v) => if v <= 2147483647 {
                Some(v as i32)
            } else {
                None
            },
            None => None,
        }
    }
}

/// Reads a signed decimal that fits in `i32`.
pub fn parse_i32(s: &str) -> (r: Option<i32>)
    ensures
        r == i32_of(s@),
{
    let n = s.unicode_len();
    if n > 0 && s.get_char(0) == '-' {
        let rest = s.substring_char(1, n);
        assert(rest@ =~= s@.drop_first());
        match parse_number(rest) {
            Some(v) => if v <= 2147483648 {
                Some((0 - (v as i64)) as i32)
            } else {
                None
            },
            None => None,
        }
    } else {
        let t = if n > 0 && s.get_char(0) == '+' {
            let rest = s.substring_char(1, n);
            assert(rest@ =~= s@.drop_first());
            rest
        } else {
            s
        };
        match parse_number(t) {
            Some(v) => if v <= 2147483647 {
                Some(v as i32)
            } else {
                None
            },
            None => None,
        }
    }
}

/// The output of a wrapped command split at its last exit-status marker:
/// the trimmed text before it, and the status (-1 when unreadable); output
/// without a marker is taken whole, with status 0.
pub open spec fn split_exit_spec(out: Seq<char>) -> (Seq<char>, i32) {
    if exists|k: int| last_at(out, EXIT_CODE_MARKER@, k) {
        let k = choose|k: int| last_at(out, EXIT_CODE_MARKER@, k);
        (
            trimmed(out.subrange(0, k)),
            match i32_of(trimmed(out.subrange(k + EXIT_CODE_MARKER@.len(), out.len() as int))) {
                Some(c) => c,
                None => -1i32,
            },
        )
    } else {
        (out, 0i32)
    }
}

/// Splits a wrapped command's output into its text and its exit status.
pub fn split_exit_code(output: &str) -> (r: (String, i32))
    ensures
        (r.0@, r.1) == split_exit_spec(output@),
{
    let n = output.unicode_len();
    match find_last(output, EXIT_CODE_MARKER) {
        Some(k) => {
            proof {
                assert forall|x: int| last_at(output@, EXIT_CODE_MARKER@, x) implies x == k by {
                    lemma_last_at_unique(output@, EXIT_CODE_MARKER@, x, k as int);
                }
            }
            assert(last_at(output@, EXIT_CODE_MARKER@, k as int));
            let m = EXIT_CODE_MARKER.unicode_len();
            let before = trim_text(output.substring_char(0, k));
            let after = trim_text(output.substring_char(k + m, n));
            let code = match parse_i32(after) {
                Some(c) => c,
                None => -1,
            };
            (String::from_str(before), code)
        },
        None => {
            assert(!exists|x: int| last_at(output@, EXIT_CODE_MARKER@, x));
            (String::from_str(output), 0)
        },
    }
}

} // verus!
