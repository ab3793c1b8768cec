//! Building the query text that selects the single managed object whose name
//! key equals a caller-supplied value.  The key is untrusted input: every
//! quote or backslash in it is escaped, so it can only ever match as a
//! string value and never terminate the filter literal early.

use vstd::prelude::*;
use vstd::string::StrSliceExecFns;
use vstd::string::StringExecFns;

verus! {

/// Relies on String::push of std: appends the given character to the end of
/// the string.
pub assume_specification[ String::push ](s: &mut String, c: char)
    ensures
        final(s)@ == old(s)@.push(c),
;

/// The key with every single quote and backslash preceded by a backslash,
/// the escaping the query language gives string literals.
pub open spec fn escaped(s: Seq<char>) -> Seq<char>
    decreases s.len(),
{
    if s.len() <= 0 {
        Seq::empty()
    } else {
        escaped_char(s[0]) + escaped(s.skip(1))
    }
}

/// The escaped form of one character of the key.
pub open spec fn escaped_char(c: char) -> Seq<char> {
    if c == '\'' || c == '\\' {
        seq!['\\', c]
    } else {
        seq![c]
    }
}

/// Escaping distributes over appending one character at the end.
proof fn lemma_escaped_push(s: Seq<char>, c: char)
    ensures
        escaped(s.push(c)) == escaped(s) + escaped_char(c),
    decreases s.len(),
{
    if s.len() == 0 {
        assert(s.push(c)[0] == c);
        assert(s.push(c).skip(1) =~= Seq::<char>::empty());
        assert(escaped(Seq::<char>::empty()) =~= Seq::<char>::empty());
        assert(escaped(s.push(c)) =~= escaped_char(c));
        assert(escaped(s) + escaped_char(c) =~= escaped_char(c));
    } else {
        assert(s.push(c)[0] == s[0]);
        assert(s.push(c).skip(1) =~= s.skip(1).push(c));
        lemma_escaped_push(s.skip(1), c);
        assert(escaped_char(s[0]) + (escaped(s.skip(1)) + escaped_char(c)) =~= (escaped_char(s[0])
            + escaped(s.skip(1))) + escaped_char(c));
    }
}

/// Escapes the untrusted name key for use inside a single-quoted string
/// literal of the query language.
pub fn escape_key(key: &str) -> (r: String)
    ensures
        r@ == escaped(key@),
{
    let n = key.unicode_len();
    let mut out = String::new();
    let mut i: usize = 0;
    while i < n
        invariant
            i <= n,
            n == key@.len(),
            out@ == escaped(key@.take(i as int)),
        decreases n - i,
    {
        let c = key.get_char(i);
        if c == '\'' || c == '\\' {
            out.push('\\');
        }
        out.push(c);
        proof {
            lemma_escaped_push(key@.take(i as int), c);
            assert(key@.take(i as int).push(c) =~= key@.take(i + 1));
            if c == '\'' || c == '\\' {
                assert(out@ =~= escaped(key@.take(i as int)) + escaped_char(c));
            } else {
                assert(out@ =~= escaped(key@.take(i as int)) + escaped_char(c));
            }
        }
        i = i + 1;
    }
    proof {
        assert(key@.take(n as int) =~= key@);
    }
    out
}

/// The text of the one query this layer issues for a record class: select
/// every attribute of the managed objects of that class whose name key
/// equals the (escaped) given key.
pub open spec fn query_text(class: Seq<char>, key: Seq<char>) -> Seq<char> {
    "SELECT * FROM "@ + class + " WHERE ElementName='"@ + escaped(key) + "'"@
}

/// Builds the query text selecting the managed objects of class `class`
/// whose name key equals `key`, with the key escaped.
pub fn build_query(class: &str, key: &str) -> (q: String)
    ensures
        q@ == query_text(class@, key@),
{
    let mut q = String::from_str("SELECT * FROM ");
    q.append(class);
    q.append(" WHERE ElementName='");
    let esc = escape_key(key);
    q.append(esc.as_str());
    q.append("'");
    q
}

} // verus!
