use vstd::prelude::*;
use vstd::string::*;
use crate::text::{chars_of, concatenate, same_text};

verus! {

/// `name` placed inside the directory `dir`: the two are joined by one `/`,
/// which is left out where `dir` is empty or already ends in one.
pub open spec fn join(dir: Seq<char>, name: Seq<char>) -> Seq<char> {
    if dir.len() == 0 || dir.last() == '/' {
        dir + name
    } else {
        dir + seq!['/'] + name
    }
}

/// Whether the last component of `s` starts at `k`: no `/` occurs from `k`
/// on, and `k` is the start of `s` or follows a `/`.
pub open spec fn is_cut(s: Seq<char>, k: int) -> bool {
    &&& 0 <= k <= s.len()
    &&& k == 0 || s[k - 1] == '/'
    &&& forall|j: int| k <= j < s.len() ==> s[j] != '/'
}

/// Where the last component of `s` starts.
pub open spec fn cut(s: Seq<char>) -> int {
    choose|k: int| is_cut(s, k)
}

/// What follows the last `/` of `s`; all of `s` where it holds none.
pub open spec fn last_component(s: Seq<char>) -> Seq<char> {
    s.skip(cut(s))
}

/// The name under which a video is stored when its URL yields none.
pub open spec fn default_name() -> Seq<char> {
    "default.mp4"@
}

/// The file name that `text` ends in. None can be derived where the last
/// component is empty, `.` or `..`; the default name stands in then.
pub open spec fn file_name_or_default(text: Seq<char>) -> Seq<char> {
    let name = last_component(text);
    if name.len() == 0 || name == "."@ || name == ".."@ {
        default_name()
    } else {
        name
    }
}

/// A text has exactly one place where its last component starts.
pub proof fn lemma_cut_unique(s: Seq<char>, k: int)
    requires
        is_cut(s, k),
    ensures
        cut(s) == k,
{
    let c = cut(s);
    assert(is_cut(s, c));
    if c < k {
        assert(s[k - 1] != '/');
    }
    if k < c {
        assert(s[c - 1] != '/');
    }
}

/// The last component of a joined path is the name, where the name holds no `/`.
pub proof fn lemma_last_component_of_join(dir: Seq<char>, name: Seq<char>)
    requires
        forall|j: int| 0 <= j < name.len() ==> name[j] != '/',
    ensures
        last_component(join(dir, name)) == name,
{
    let p = join(dir, name);
    let k = p.len() - name.len();
    assert forall|j: int| k <= j < p.len() implies p[j] != '/' by {
        assert(p[j] == name[j - k]);
    }
    lemma_cut_unique(p, k);
    assert(p.skip(k) =~= name);
}

/// Joins a directory and a name into one path.
pub fn join_path(dir: &str, name: &str) -> (r: String)
    ensures
        r@ == join(dir@, name@),
{
    let d = chars_of(dir);
    if d.len() == 0 || d[d.len() - 1] == '/' {
        concatenate(dir, name)
    } else {
        let with_slash = concatenate(dir, "/");
        proof {
            reveal_strlit("/");
            assert("/"@ =~= seq!['/']);
        }
        concatenate(with_slash.as_str(), name)
    }
}

/// A file name holds no `/` and is neither empty nor `.` nor `..`.
pub open spec fn is_file_name(name: Seq<char>) -> bool {
    &&& name.len() > 0
    &&& name != "."@
    &&& name != ".."@
    &&& forall|j: int| 0 <= j < name.len() ==> name[j] != '/'
}

/// The default name is a file name.
pub proof fn lemma_default_is_file_name()
    ensures
        is_file_name(default_name()),
{
    reveal_strlit("default.mp4");
    reveal_strlit(".");
    reveal_strlit("..");
}

/// What `file_name_or_default` gives is a file name, whatever the text.
pub proof fn lemma_file_name_is_one(text: Seq<char>)
    ensures
        is_file_name(file_name_or_default(text)),
{
    lemma_default_is_file_name();
    let name = last_component(text);
    assert(exists|k: int| is_cut(text, k)) by {
        lemma_cut_exists(text);
    }
    assert(is_cut(text, cut(text)));
    assert forall|j: int| 0 <= j < name.len() implies name[j] != '/' by {
        assert(name[j] == text[cut(text) + j]);
    }
}

/// Every text has a place where its last component starts.
pub proof fn lemma_cut_exists(text: Seq<char>)
    ensures
        exists|k: int| is_cut(text, k),
    decreases text.len(),
{
    if text.len() == 0 {
        assert(is_cut(text, 0));
    } else if text.last() == '/' {
        assert(is_cut(text, text.len() as int));
    } else {
        let front = text.drop_last();
        lemma_cut_exists(front);
        let k = choose|k: int| is_cut(front, k);
        assert(is_cut(text, k)) by {
            assert forall|j: int| k <= j < text.len() implies text[j] != '/' by {
                if j < front.len() {
                    assert(front[j] == text[j]);
                }
            }
            if k > 0 {
                assert(front[k - 1] == text[k - 1]);
            }
        }
    }
}

/// The file name that `text` ends in, or the default name.
pub fn file_name(text: &str) -> (r: String)
    ensures
        r@ == file_name_or_default(text@),
{
    let chars = chars_of(text);
    let n: usize = chars.len();
    let mut i: usize = n;
    while i > 0 && chars[i - 1] != '/'
        invariant
            i <= n,
            n == chars@.len(),
            forall|j: int| i <= j < n ==> chars@[j] != '/',
        decreases i,
    {
        i -= 1;
    }
    proof {
        lemma_cut_unique(text@, i as int);
    }
    let name = text.substring_char(i, n);
    assert(name@ =~= last_component(text@));
    if i == n || same_text(name, ".") || same_text(name, "..") {
        "default.mp4".to_owned()
    } else {
        name.to_owned()
    }
}

} // verus!
