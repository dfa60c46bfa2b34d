use vstd::prelude::*;
use vstd::string::*;

verus! {

/// The characters after the last `/` of `s` (all of `s` when it has no `/`).
/// This is what splitting on `/` and taking the last piece yields.
pub open spec fn last_segment_of(s: Seq<char>) -> Seq<char>
    decreases s.len(),
{
    if s.len() == 0 {
        s
    } else if s[s.len() - 1] == '/' {
        Seq::<char>::empty()
    } else {
        last_segment_of(s.subrange(0, s.len() - 1)) + seq![s[s.len() - 1]]
    }
}

proof fn lemma_last_segment_suffix(s: Seq<char>, i: int)
    requires
        0 <= i <= s.len(),
        forall|j: int| i <= j < s.len() ==> s[j] != '/',
        i > 0 ==> s[i - 1] == '/',
    ensures
        last_segment_of(s) == s.subrange(i, s.len() as int),
    decreases s.len(),
{
    if i == s.len() {
        if s.len() > 0 {
            assert(last_segment_of(s) == Seq::<char>::empty());
        }
        assert(s.subrange(i, s.len() as int) =~= Seq::<char>::empty());
    } else {
        let prefix = s.subrange(0, s.len() - 1);
        lemma_last_segment_suffix(prefix, i);
        assert(prefix.subrange(i, prefix.len() as int) =~= s.subrange(i, s.len() - 1));
        assert(s.subrange(i, s.len() - 1) + seq![s[s.len() - 1]] =~= s.subrange(
            i,
            s.len() as int,
        ));
    }
}

/// The piece of `url` after its last `/`, as a fresh `String`; empty when the
/// URL ends in `/` or is empty.
pub fn last_segment(url: &str) -> (r: String)
    ensures
        r@ == last_segment_of(url@),
{
    let n = url.unicode_len();
    let mut i = n;
    while i > 0 && url.get_char(i - 1) != '/'
        invariant
            i <= n,
            n == url@.len(),
            forall|j: int| i <= j < n ==> url@[j] != '/',
        decreases i,
    {
        i = i - 1;
    }
    let seg = url.substring_char(i, n);
    proof {
        lemma_last_segment_suffix(url@, i as int);
    }
    seg.to_owned()
}

/// `dir`, a `/` separator, then `name`, as one path string.
pub fn join_path(dir: &str, name: &str) -> (r: String)
    ensures
        r@ == dir@ + seq!['/'] + name@,
{
    proof {
        reveal_strlit("/");
        assert("/"@ =~= seq!['/']);
    }
    let mut s = dir.to_owned();
    s.append("/");
    s.append(name);
    s
}

} // verus!
