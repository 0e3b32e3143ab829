use vstd::prelude::*;

use vstd::string::{StrSliceExecFns, StringExecFns};

verus! {

/// What remains of `s` after removing every leading and every trailing `'"'`
/// character, as `str::trim_matches('"')` does.
pub open spec fn trim_quotes(s: Seq<char>) -> Seq<char>
    decreases s.len(),
{
    if s.len() > 0 && s[0] == '"' {
        trim_quotes(s.drop_first())
    } else if s.len() > 0 && s[s.len() - 1] == '"' {
        trim_quotes(s.drop_last())
    } else {
        s
    }
}

/// `s` with every literal backslash-`n` pair turned into a newline character,
/// scanning left to right, as `str::replace("\\n", "\n")` does.
pub open spec fn unescape_newlines(s: Seq<char>) -> Seq<char>
    decreases s.len(),
{
    if s.len() >= 2 && s[0] == '\\' && s[1] == 'n' {
        seq!['\n'] + unescape_newlines(s.skip(2))
    } else if s.len() >= 1 {
        seq![s[0]] + unescape_newlines(s.skip(1))
    } else {
        Seq::<char>::empty()
    }
}

/// A message's text as handed to the markdown compiler: enclosing quote
/// characters stripped, then encoded line breaks restored.
pub open spec fn prepared(s: Seq<char>) -> Seq<char> {
    unescape_newlines(trim_quotes(s))
}

/// Removes every leading and every trailing `'"'` character.
pub fn trim_quotes_exec(s: &str) -> (r: &str)
    ensures
        r@ == trim_quotes(s@),
{
    let len = s.unicode_len();
    let mut lo: usize = 0;
    let mut hi: usize = len;
    proof {
        assert(s@.subrange(0, len as int) =~= s@);
    }
    while lo < hi && s.get_char(lo) == '"'
        invariant
            lo <= hi,
            hi == len,
            len == s@.len(),
            trim_quotes(s@) == trim_quotes(s@.subrange(lo as int, hi as int)),
        decreases hi - lo,
    {
        proof {
            let sub = s@.subrange(lo as int, hi as int);
            assert(sub[0] == s@[lo as int]);
            assert(sub.drop_first() =~= s@.subrange(lo as int + 1, hi as int));
        }
        lo = lo + 1;
    }
    while lo < hi && s.get_char(hi - 1) == '"'
        invariant
            lo <= hi <= len,
            len == s@.len(),
            trim_quotes(s@) == trim_quotes(s@.subrange(lo as int, hi as int)),
            lo < hi ==> s@[lo as int] != '"',
        decreases hi - lo,
    {
        proof {
            let sub = s@.subrange(lo as int, hi as int);
            assert(sub[0] == s@[lo as int]);
            assert(sub[sub.len() - 1] == s@[hi as int - 1]);
            assert(sub.drop_last() =~= s@.subrange(lo as int, hi as int - 1));
        }
        hi = hi - 1;
    }
    proof {
        let sub = s@.subrange(lo as int, hi as int);
        if lo < hi {
            assert(sub[0] == s@[lo as int]);
            assert(sub[sub.len() - 1] == s@[hi as int - 1]);
        }
    }
    s.substring_char(lo, hi)
}

/// Turns every literal backslash-`n` pair into a newline character.
pub fn unescape_newlines_exec(s: &str) -> (r: String)
    ensures
        r@ == unescape_newlines(s@),
{
    let len = s.unicode_len();
    let mut out = String::new();
    let mut i: usize = 0;
    proof {
        assert(s@.skip(0) =~= s@);
        assert(out@ + unescape_newlines(s@) =~= unescape_newlines(s@));
    }
    while i < len
        invariant
            i <= len,
            len == s@.len(),
            unescape_newlines(s@) == out@ + unescape_newlines(s@.skip(i as int)),
        decreases len - i,
    {
        let ghost pre = out@;
        let ghost rest = s@.skip(i as int);
        if i + 1 < len && s.get_char(i) == '\\' && s.get_char(i + 1) == 'n' {
            out.append("\n");
            proof {
                reveal_strlit("\n");
                assert("\n"@ =~= seq!['\n']);
                assert(rest[0] == s@[i as int] && rest[1] == s@[i as int + 1]);
                assert(rest.skip(2) =~= s@.skip(i as int + 2));
                assert(unescape_newlines(rest) == seq!['\n'] + unescape_newlines(
                    s@.skip(i as int + 2),
                ));
                assert(pre + unescape_newlines(rest) =~= out@ + unescape_newlines(
                    s@.skip(i as int + 2),
                ));
            }
            i = i + 2;
        } else {
            let piece = s.substring_char(i, i + 1);
            out.append(piece);
            proof {
                assert(piece@ =~= seq![s@[i as int]]);
                assert(rest[0] == s@[i as int]);
                assert(rest.skip(1) =~= s@.skip(i as int + 1));
                assert(unescape_newlines(rest) == seq![s@[i as int]] + unescape_newlines(
                    s@.skip(i as int + 1),
                ));
                assert(pre + unescape_newlines(rest) =~= out@ + unescape_newlines(
                    s@.skip(i as int + 1),
                ));
            }
            i = i + 1;
        }
    }
    proof {
        assert(s@.skip(i as int) =~= Seq::<char>::empty());
        assert(out@ + unescape_newlines(s@.skip(i as int)) =~= out@);
    }
    out
}

/// The pure text transform applied before markdown compilation: quote marks
/// stripped, encoded line breaks restored.
pub fn prepare_text(s: &str) -> (r: String)
    ensures
        r@ == prepared(s@),
{
    let trimmed = trim_quotes_exec(s);
    unescape_newlines_exec(trimmed)
}

/// What `markdown::to_html` returns for a given text: the text compiled to
/// HTML according to CommonMark.  The rendering depends on the input
/// characters alone.
pub uninterp spec fn html_of(s: Seq<char>) -> Seq<char>;

/// Relies on `markdown::to_html`: it compiles markdown to HTML according to
/// CommonMark, never fails with MDX extensions off (the default), and its
/// result is a function of the input text alone.
#[verifier::external_body]
fn to_html(s: &str) -> (r: String)
    ensures
        r@ == html_of(s@),
{
    markdown::to_html(s)
}

/// Renders a message's text for display: strips enclosing quote characters,
/// restores encoded line breaks, and compiles the result to HTML.
pub fn render_message_html(text: &str) -> (r: String)
    ensures
        r@ == html_of(prepared(text@)),
{
    let p = prepare_text(text);
    to_html(p.as_str())
}

} // verus!
