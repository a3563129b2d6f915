use vstd::prelude::*;
use vstd::string::StrSliceExecFns;
use vstd::string::StringExecFns;

verus! {

/// The characters after the final `'@'` of `s`; empty when `s` holds no `'@'`.
///
/// The system projection that enumerates stream creations stores payloads of
/// the form `<revision>@<stream-name>`; this is the rule that takes the
/// stream name out of such a payload.
pub open spec fn name_after_at(s: Seq<char>) -> Seq<char>
    decreases s.len(),
{
    if s.len() == 0 {
        Seq::empty()
    } else if !s.contains('@') {
        Seq::empty()
    } else if s.last() == '@' {
        Seq::empty()
    } else {
        name_after_at(s.drop_last()).push(s.last())
    }
}

/// When `'@'` stands at `j` and nowhere later, the name is what follows `j`.
pub proof fn lemma_name_after_at_found(s: Seq<char>, j: int)
    requires
        0 <= j < s.len(),
        s[j] == '@',
        forall|k: int| j < k < s.len() ==> s[k] != '@',
    ensures
        name_after_at(s) == s.subrange(j + 1, s.len() as int),
    decreases s.len(),
{
    assert(s.contains('@'));
    if j == s.len() - 1 {
        assert(s.last() == '@');
        assert(name_after_at(s) == Seq::<char>::empty());
        assert(s.subrange(j + 1, s.len() as int) =~= Seq::<char>::empty());
    } else {
        assert(s.last() != '@');
        let t = s.drop_last();
        assert(t[j] == '@');
        assert(forall|k: int| j < k < t.len() ==> t[k] != '@');
        lemma_name_after_at_found(t, j);
        assert(name_after_at(s) == t.subrange(j + 1, t.len() as int).push(s.last()));
        assert(t.subrange(j + 1, t.len() as int).push(s.last()) =~= s.subrange(
            j + 1,
            s.len() as int,
        ));
    }
}

/// Takes the stream name out of a creation-projection payload: the substring
/// after the final `'@'`, or the empty string when no `'@'` occurs.
pub fn stream_name_of(payload: &str) -> (r: String)
    ensures
        r@ == name_after_at(payload@),
{
    let n = payload.unicode_len();
    let mut i = n;
    while i > 0
        invariant
            i <= n,
            n == payload@.len(),
            forall|k: int| i <= k < n ==> payload@[k] != '@',
        decreases i,
    {
        if payload.get_char(i - 1) == '@' {
            proof {
                lemma_name_after_at_found(payload@, i - 1);
            }
            let tail = payload.substring_char(i, n);
            return String::from_str(tail);
        }
        i = i - 1;
    }
    assert(!payload@.contains('@')) by {
        if payload@.contains('@') {
            let k = choose|k: int| 0 <= k < payload@.len() && payload@[k] == '@';
            assert(payload@[k] != '@');
        }
    }
    String::new()
}

/// The modal error panel's message for a failure on stream `name`.
pub open spec fn overlay_text_spec(name: Seq<char>, msg: Seq<char>) -> Seq<char> {
    "Stream '"@ + name + "': "@ + msg + ". Press 'q' to close."@
}

/// Builds the error panel's message: `Stream '<name>': <message>. Press 'q' to close.`
pub fn overlay_text(name: &str, msg: &str) -> (r: String)
    ensures
        r@ == overlay_text_spec(name@, msg@),
{
    let mut r = String::from_str("Stream '");
    r.append(name);
    r.append("': ");
    r.append(msg);
    r.append(". Press 'q' to close.");
    proof {
        assert(r@ =~= overlay_text_spec(name@, msg@));
    }
    r
}

/// Relies on `String::push`: appends the given character to the end of the string.
#[verifier::external_body]
pub fn push_char(s: &mut String, c: char)
    ensures
        final(s)@ == old(s)@.push(c),
{
    s.push(c);
}

/// Relies on `String::pop`: removes and returns the last character, or
/// returns `None` and leaves the string as it is when it is empty.
#[verifier::external_body]
pub fn pop_char(s: &mut String) -> (r: Option<char>)
    ensures
        old(s)@.len() == 0 ==> final(s)@ == old(s)@ && r is None,
        old(s)@.len() > 0 ==> final(s)@ == old(s)@.drop_last() && r == Some(old(s)@.last()),
{
    s.pop()
}

} // verus!
