//! Where a sandbox lives on disk.
use vstd::prelude::*;
use uuid::Uuid;

verus! {

/// Name of the project scaffolded inside each sandbox's home directory.
pub const PROJECT_NAME: &'static str = "sandbox";

/// `dir/name`.
pub open spec fn join_spec(dir: Seq<char>, name: Seq<char>) -> Seq<char> {
    dir + seq!['/'] + name
}

/// `path` names `dir` itself or something below it.
pub open spec fn is_within(path: Seq<char>, dir: Seq<char>) -> bool {
    path == dir || (dir.len() < path.len() && path.take(dir.len() as int + 1) == dir + seq!['/'])
}

/// A lowercase hexadecimal digit.
pub open spec fn is_lower_hex(c: char) -> bool {
    ('0' <= c && c <= '9') || ('a' <= c && c <= 'f')
}

/// A hyphenated identifier: 8-4-4-4-12 lowercase hexadecimal digits.
pub open spec fn is_workspace_id(id: Seq<char>) -> bool {
    &&& id.len() == 36
    &&& forall|i: int|
        0 <= i < 36 ==> if i == 8 || i == 13 || i == 18 || i == 23 {
            #[trigger] id[i] == '-'
        } else {
            is_lower_hex(id[i])
        }
}

/// The directory made for one sandbox under `base`.
pub open spec fn home_spec(base: Seq<char>, id: Seq<char>) -> Seq<char> {
    join_spec(base, id)
}

/// The root of the project scaffolded in a sandbox's home.
pub open spec fn root_spec(base: Seq<char>, id: Seq<char>) -> Seq<char> {
    join_spec(home_spec(base, id), PROJECT_NAME@)
}

/// Being within a directory is transitive.
pub proof fn lemma_within_within(path: Seq<char>, inner: Seq<char>, outer: Seq<char>)
    requires
        is_within(path, inner),
        is_within(inner, outer),
    ensures
        is_within(path, outer),
{
    if path != inner && inner != outer {
        let n = outer.len() as int + 1;
        assert(path.take(n) =~= path.take(inner.len() as int + 1).take(n));
        assert((inner + seq!['/']).take(n) =~= inner.take(n));
    }
}

/// A project root lies within its sandbox's home.
pub proof fn lemma_root_within_home(base: Seq<char>, id: Seq<char>)
    ensures
        is_within(root_spec(base, id), home_spec(base, id)),
{
    let home = home_spec(base, id);
    let root = root_spec(base, id);
    assert(root.take(home.len() as int + 1) =~= home + seq!['/']);
}

/// Two sandboxes made under one base with different identifiers are
/// isolated: no path lies within both homes, nothing within one project root
/// lies within the other home, and their project roots differ.
pub proof fn lemma_isolation(base: Seq<char>, id1: Seq<char>, id2: Seq<char>, path: Seq<char>)
    requires
        is_workspace_id(id1),
        is_workspace_id(id2),
        id1 != id2,
    ensures
        !(is_within(path, home_spec(base, id1)) && is_within(path, home_spec(base, id2))),
        is_within(path, root_spec(base, id1)) ==> !is_within(path, home_spec(base, id2)),
        root_spec(base, id1) != root_spec(base, id2),
{
    lemma_root_within_home(base, id1);
    if is_within(path, root_spec(base, id1)) {
        lemma_within_within(path, root_spec(base, id1), home_spec(base, id1));
    }
    let h1 = home_spec(base, id1);
    let h2 = home_spec(base, id2);
    let n = h1.len() as int;
    let off = base.len() as int + 1;
    assert forall|i: int| 0 <= i < 36 implies h1[off + i] == id1[i] && h2[off + i] == id2[i] by {}
    if is_within(path, h1) && is_within(path, h2) {
        if path != h1 {
            assert(path.take(n) =~= path.take(n + 1).take(n));
            assert((h1 + seq!['/']).take(n) =~= h1);
        }
        if path != h2 {
            assert(path.take(n) =~= path.take(n + 1).take(n));
            assert((h2 + seq!['/']).take(n) =~= h2);
        }
        assert(path.take(n) =~= h1);
        assert(path.take(n) =~= h2);
        assert forall|i: int| 0 <= i < 36 implies id1[i] == id2[i] by {
            assert(h1[off + i] == h2[off + i]);
        }
        assert(id1 =~= id2);
    }
    let r1 = root_spec(base, id1);
    let r2 = root_spec(base, id2);
    if r1 == r2 {
        assert forall|i: int| 0 <= i < 36 implies id1[i] == id2[i] by {
            assert(r1[off + i] == h1[off + i]);
            assert(r2[off + i] == h2[off + i]);
        }
        assert(id1 =~= id2);
    }
}

/// Relies on `uuid::Uuid::new_v4` for a random identifier, and on its
/// `Display` impl, which writes it hyphenated in lowercase hexadecimal.
#[verifier::external_body]
pub(crate) fn fresh_id() -> (r: String)
    ensures
        is_workspace_id(r@),
{
    Uuid::new_v4().to_string()
}

/// Joins a directory and a name with a `/`.
pub fn join(dir: &str, name: &str) -> (r: String)
    ensures
        r@ == join_spec(dir@, name@),
{
    let mut r = dir.to_string();
    r.append("/");
    r.append(name);
    proof {
        reveal_strlit("/");
    }
    r
}

/// The home directory of the sandbox with identifier `id` under `base`.
pub fn workspace_home(base: &str, id: &str) -> (r: String)
    ensures
        r@ == home_spec(base@, id@),
{
    join(base, id)
}

/// The project root of the sandbox with identifier `id` under `base`.
pub fn workspace_root(base: &str, id: &str) -> (r: String)
    ensures
        r@ == root_spec(base@, id@),
{
    let home = workspace_home(base, id);
    join(home.as_str(), PROJECT_NAME)
}

} // verus!
