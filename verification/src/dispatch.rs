//! The command dispatcher: it trims a submitted command and resolves it
//! to an action — quit for anything starting with `q`, a page switch
//! for the two recognized navigation commands, a fatal abort for the
//! unimplemented `help` command, and a no-op for everything else.

use vstd::prelude::*;
use crate::ui::Page;

verus! {

/// The action a submitted command resolves to.
#[derive(Debug)]
pub enum Action {
    /// Stop the event loop.
    Quit,
    /// Replace the current page.
    Navigate(Page),
    /// Terminate abnormally, with the reason to report.
    Abort(String),
    /// Do nothing.
    NoOp,
}

/// The characters that trimming strips from either end of a command:
/// the whitespace a terminal command line can carry.
pub open spec fn is_blank(c: char) -> bool {
    c == ' ' || c == '\t' || c == '\n' || c == '\r'
}

/// A text with its leading blanks stripped.
pub open spec fn spec_trim_front(s: Seq<char>) -> Seq<char>
    decreases s.len(),
{
    if s.len() > 0 && is_blank(s[0]) {
        spec_trim_front(s.subrange(1, s.len() as int))
    } else {
        s
    }
}

/// A text with its trailing blanks stripped.
pub open spec fn spec_trim_back(s: Seq<char>) -> Seq<char>
    decreases s.len(),
{
    if s.len() > 0 && is_blank(s[s.len() - 1]) {
        spec_trim_back(s.subrange(0, s.len() - 1))
    } else {
        s
    }
}

/// A text with the blanks on both ends stripped.
pub open spec fn spec_trim(s: Seq<char>) -> Seq<char> {
    spec_trim_back(spec_trim_front(s))
}

/// True when every character of a text is a blank.
pub open spec fn all_blank(s: Seq<char>) -> bool {
    forall|i: int| 0 <= i < s.len() ==> is_blank(#[trigger] s[i])
}

proof fn lemma_trim_front_skips_blanks(pre: Seq<char>, t: Seq<char>)
    requires
        all_blank(pre),
    ensures
        spec_trim_front(pre + t) == spec_trim_front(t),
    decreases pre.len(),
{
    if pre.len() == 0 {
        assert(pre + t =~= t);
    } else {
        let c = pre + t;
        assert(c[0] == pre[0]);
        assert(c.subrange(1, c.len() as int) =~= pre.subrange(1, pre.len() as int) + t);
        lemma_trim_front_skips_blanks(pre.subrange(1, pre.len() as int), t);
    }
}

proof fn lemma_trim_back_skips_blanks(t: Seq<char>, post: Seq<char>)
    requires
        all_blank(post),
    ensures
        spec_trim_back(t + post) == spec_trim_back(t),
    decreases post.len(),
{
    if post.len() == 0 {
        assert(t + post =~= t);
    } else {
        let c = t + post;
        assert(c[c.len() - 1] == post[post.len() - 1]);
        assert(c.subrange(0, c.len() - 1) =~= t + post.subrange(0, post.len() - 1));
        lemma_trim_back_skips_blanks(t, post.subrange(0, post.len() - 1));
    }
}

proof fn lemma_trim_front_concat(s: Seq<char>, post: Seq<char>)
    ensures
        spec_trim_front(s).len() > 0 ==> spec_trim_front(s + post) == spec_trim_front(s) + post,
        spec_trim_front(s).len() == 0 ==> spec_trim_front(s + post) == spec_trim_front(post),
    decreases s.len(),
{
    if s.len() == 0 {
        assert(s + post =~= post);
    } else if is_blank(s[0]) {
        let c = s + post;
        assert(c[0] == s[0]);
        assert(c.subrange(1, c.len() as int) =~= s.subrange(1, s.len() as int) + post);
        lemma_trim_front_concat(s.subrange(1, s.len() as int), post);
    } else {
        let c = s + post;
        assert(c[0] == s[0]);
    }
}

proof fn lemma_trim_front_all_blank(t: Seq<char>)
    requires
        all_blank(t),
    ensures
        spec_trim_front(t).len() == 0,
    decreases t.len(),
{
    if t.len() > 0 {
        lemma_trim_front_all_blank(t.subrange(1, t.len() as int));
    }
}

/// Law: blanks surrounding a command never reach the dispatcher — the
/// trimmed text is the same whatever blank padding the raw entry
/// carries on either end.
pub proof fn lemma_trim_ignores_surrounding_blanks(pre: Seq<char>, s: Seq<char>, post: Seq<char>)
    requires
        all_blank(pre),
        all_blank(post),
    ensures
        spec_trim(pre + s + post) == spec_trim(s),
{
    assert(pre + s + post =~= pre + (s + post));
    lemma_trim_front_skips_blanks(pre, s + post);
    lemma_trim_front_concat(s, post);
    if spec_trim_front(s).len() > 0 {
        lemma_trim_back_skips_blanks(spec_trim_front(s), post);
    } else {
        lemma_trim_front_all_blank(post);
        assert(spec_trim_front(s) =~= spec_trim_front(post));
    }
}

/// Strips the blanks from both ends of a command.
pub fn trim(s: &Vec<char>) -> (r: Vec<char>)
    ensures
        r@ == spec_trim(s@),
{
    let len: usize = s.len();
    proof {
        assert(s@.subrange(0, len as int) =~= s@);
    }
    let mut start: usize = 0;
    while start < len && (s[start] == ' ' || s[start] == '\t' || s[start] == '\n' || s[start] == '\r')
        invariant
            len == s@.len(),
            start <= len,
            spec_trim_front(s@.subrange(start as int, len as int)) == spec_trim_front(s@),
        decreases len - start,
    {
        proof {
            let sub = s@.subrange(start as int, len as int);
            assert(sub.subrange(1, sub.len() as int) =~= s@.subrange(
                start as int + 1,
                len as int,
            ));
        }
        start += 1;
    }
    proof {
        assert(spec_trim_front(s@) == s@.subrange(start as int, len as int));
    }
    let mut end: usize = len;
    while end > start && (s[end - 1] == ' ' || s[end - 1] == '\t' || s[end - 1] == '\n' || s[end - 1] == '\r')
        invariant
            len == s@.len(),
            start <= end <= len,
            spec_trim_back(s@.subrange(start as int, end as int)) == spec_trim(s@),
        decreases end,
    {
        proof {
            let sub = s@.subrange(start as int, end as int);
            assert(sub.subrange(0, sub.len() - 1) =~= s@.subrange(
                start as int,
                end as int - 1,
            ));
        }
        end -= 1;
    }
    proof {
        assert(spec_trim(s@) == s@.subrange(start as int, end as int));
    }
    let mut r: Vec<char> = Vec::new();
    let mut i: usize = start;
    while i < end
        invariant
            start <= i <= end <= s@.len(),
            r@ == s@.subrange(start as int, i as int),
        decreases end - i,
    {
        r.push(s[i]);
        proof {
            assert(r@ =~= s@.subrange(start as int, i as int + 1));
        }
        i += 1;
    }
    proof {
        assert(r@ =~= s@.subrange(start as int, end as int));
    }
    r
}

/// True exactly when two texts hold the same characters.
fn chars_eq(a: &Vec<char>, b: &Vec<char>) -> (r: bool)
    ensures
        r <==> a@ == b@,
{
    if a.len() != b.len() {
        return false;
    }
    let mut i: usize = 0;
    while i < a.len()
        invariant
            a@.len() == b@.len(),
            i <= a@.len(),
            forall|j: int| 0 <= j < i ==> a@[j] == b@[j],
        decreases a@.len() - i,
    {
        if a[i] != b[i] {
            return false;
        }
        i += 1;
    }
    proof {
        assert(a@ =~= b@);
    }
    true
}

/// What a dispatched command resolves to, stated over the trimmed
/// text: `help` aborts, anything starting with `q` quits, the two
/// navigation commands switch the page, and everything else — the
/// empty command included — is a no-op.
pub open spec fn dispatch_post(raw: Seq<char>, r: Action) -> bool {
    let t = spec_trim(raw);
    &&& (r is Abort <==> t == "help"@)
    &&& (r matches Action::Abort(m) ==> m@ == "no help available"@)
    &&& (r is Quit <==> t != "help"@ && t.len() > 0 && t[0] == 'q')
    &&& (r is Navigate <==> t == "example"@ || t == "prostite_please"@)
    &&& (r matches Action::Navigate(p) ==> (p is Example <==> t == "example"@) && (
    p is ForgiveMePlease <==> t == "prostite_please"@) && (p is Example || p is ForgiveMePlease))
    &&& (r is NoOp <==> !(t == "help"@) && !(t.len() > 0 && t[0] == 'q') && !(t == "example"@)
        && !(t == "prostite_please"@))
}

/// Law: the `help` command aborts however much blank padding the raw
/// entry carries around it.
pub proof fn lemma_help_aborts_despite_blanks(pre: Seq<char>, post: Seq<char>, r: Action)
    requires
        all_blank(pre),
        all_blank(post),
        dispatch_post(pre + "help"@ + post, r),
    ensures
        r is Abort,
{
    lemma_trim_ignores_surrounding_blanks(pre, "help"@, post);
    reveal_strlit("help");
    assert(spec_trim("help"@) == "help"@);
}

/// Resolves a raw command to its action. Trimming is applied here, so
/// surrounding whitespace never changes what a command means.
pub fn dispatch(raw: &Vec<char>) -> (r: Action)
    ensures
        dispatch_post(raw@, r),
{
    proof {
        reveal_strlit("help");
        reveal_strlit("example");
        reveal_strlit("prostite_please");
        reveal_strlit("no help available");
    }
    let t = trim(raw);
    let help: Vec<char> = vec!['h', 'e', 'l', 'p'];
    let example: Vec<char> = vec!['e', 'x', 'a', 'm', 'p', 'l', 'e'];
    let forgive: Vec<char> = vec![
        'p', 'r', 'o', 's', 't', 'i', 't', 'e', '_', 'p', 'l', 'e', 'a', 's', 'e',
    ];
    proof {
        assert(help@ =~= "help"@);
        assert(example@ =~= "example"@);
        assert(forgive@ =~= "prostite_please"@);
    }
    if chars_eq(&t, &help) {
        Action::Abort("no help available".to_owned())
    } else if t.len() > 0 && t[0] == 'q' {
        Action::Quit
    } else if chars_eq(&t, &example) {
        Action::Navigate(Page::Example)
    } else if chars_eq(&t, &forgive) {
        Action::Navigate(Page::ForgiveMePlease)
    } else {
        Action::NoOp
    }
}

} // verus!
