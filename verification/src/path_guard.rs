//! Which files the tools may read and write: those under the allowed roots.
use vstd::prelude::*;
use vstd::string::*;
use crate::json::opt_string_view;
use crate::telegram::media::{download_path_spec, fresh_download_path};
use crate::tools::output::{debug_path, path_debug_text};

verus! {

/// Whether the path lies under the base, comparing whole components, as
/// `Path::starts_with` decides.
pub uninterp spec fn path_starts_with(path: Seq<char>, base: Seq<char>) -> bool;

/// `Path::new(path).starts_with(base)`: std compares whole path components
/// (`/a/bc` does not start with `/a/b`). How components are split is not
/// stated here; the answer is named.
#[verifier::external_body]
fn starts_with(path: &str, base: &str) -> (r: bool)
    ensures
        r == path_starts_with(path@, base@),
{
    std::path::Path::new(path).starts_with(base)
}

/// What one component does to the components before it: `.` and empty
/// components change nothing, `..` drops the last one (and stays at the
/// root), any other is appended.
pub open spec fn step_component(stack: Seq<Seq<char>>, seg: Seq<char>) -> Seq<Seq<char>> {
    if seg.len() == 0 || seg == "."@ {
        stack
    } else if seg == ".."@ {
        if stack.len() > 0 {
            stack.drop_last()
        } else {
            stack
        }
    } else {
        stack.push(seg)
    }
}

/// Reading a path left to right: the components resolved so far, and the
/// component being read.
pub open spec fn walk_path(s: Seq<char>) -> (Seq<Seq<char>>, Seq<char>)
    decreases s.len(),
{
    if s.len() == 0 {
        (Seq::empty(), Seq::empty())
    } else {
        let (stack, cur) = walk_path(s.drop_last());
        if s.last() == '/' {
            (step_component(stack, cur), Seq::empty())
        } else {
            (stack, cur.push(s.last()))
        }
    }
}

/// The components of a path once `.` and `..` are resolved.
pub open spec fn normal_components(s: Seq<char>) -> Seq<Seq<char>> {
    step_component(walk_path(s).0, walk_path(s).1)
}

/// `/c1/c2/.../cn`.
pub open spec fn join_components(comps: Seq<Seq<char>>) -> Seq<char>
    decreases comps.len(),
{
    if comps.len() == 0 {
        Seq::empty()
    } else {
        join_components(comps.drop_last()) + "/"@ + comps.last()
    }
}

/// A path from the root with `.` and `..` resolved as text, without looking
/// at the disk: `/tmp/root/../outside.txt` is `/tmp/outside.txt`.
pub open spec fn normalize_spec(s: Seq<char>) -> Seq<char> {
    if normal_components(s).len() == 0 {
        "/"@
    } else {
        join_components(normal_components(s))
    }
}

fn is_dot(seg: &str) -> (b: bool)
    ensures
        b == (seg@ == "."@),
{
    proof {
        reveal_strlit(".");
    }
    if seg.unicode_len() == 1 {
        let c = seg.get_char(0);
        assert(c == '.' ==> seg@ =~= "."@);
        c == '.'
    } else {
        false
    }
}

fn is_dot_dot(seg: &str) -> (b: bool)
    ensures
        b == (seg@ == ".."@),
{
    proof {
        reveal_strlit("..");
    }
    if seg.unicode_len() == 2 {
        let c0 = seg.get_char(0);
        let c1 = seg.get_char(1);
        assert(c0 == '.' && c1 == '.' ==> seg@ =~= ".."@);
        c0 == '.' && c1 == '.'
    } else {
        false
    }
}

fn push_component(stack: &mut Vec<String>, seg: &str)
    ensures
        final(stack)@.map_values(|c: String| c@) == step_component(
            old(stack)@.map_values(|c: String| c@),
            seg@,
        ),
{
    let ghost before = stack@.map_values(|c: String| c@);
    if seg.unicode_len() == 0 || is_dot(seg) {
    } else if is_dot_dot(seg) {
        if stack.len() > 0 {
            stack.pop();
            assert(stack@.map_values(|c: String| c@) =~= before.drop_last());
        }
    } else {
        stack.push(String::from_str(seg));
        assert(stack@.map_values(|c: String| c@) =~= before.push(seg@));
    }
}

/// The path with `.` and `..` resolved as text.
pub fn normalize(path: &str) -> (r: String)
    ensures
        r@ == normalize_spec(path@),
{
    let len = path.unicode_len();
    let mut stack: Vec<String> = Vec::new();
    let mut start: usize = 0;
    let mut i: usize = 0;
    while i < len
        invariant
            len == path@.len(),
            start <= i <= len,
            walk_path(path@.take(i as int)) == (
                stack@.map_values(|c: String| c@),
                path@.subrange(start as int, i as int),
            ),
        decreases len - i,
    {
        assert(path@.take(i + 1).drop_last() =~= path@.take(i as int));
        assert(path@.take(i + 1).last() == path@[i as int]);
        let c = path.get_char(i);
        if c == '/' {
            let seg = path.substring_char(start, i);
            push_component(&mut stack, seg);
            start = i + 1;
            assert(path@.subrange(start as int, i + 1) =~= Seq::<char>::empty());
        } else {
            assert(path@.subrange(start as int, i + 1) =~= path@.subrange(start as int, i as int).push(c));
        }
        i = i + 1;
    }
    assert(path@.take(len as int) =~= path@);
    let seg = path.substring_char(start, len);
    push_component(&mut stack, seg);
    let ghost comps = stack@.map_values(|c: String| c@);
    assert(comps == normal_components(path@));
    if stack.len() == 0 {
        return String::from_str("/");
    }
    let mut out = String::new();
    let mut k: usize = 0;
    while k < stack.len()
        invariant
            k <= stack.len(),
            comps == stack@.map_values(|c: String| c@),
            out@ == join_components(comps.take(k as int)),
        decreases stack.len() - k,
    {
        assert(comps.take(k + 1).drop_last() =~= comps.take(k as int));
        out.append("/");
        out.append(stack[k].as_str());
        proof {
            reveal_strlit("/");
        }
        assert(out@ =~= join_components(comps.take(k + 1)));
        k = k + 1;
    }
    assert(comps.take(k as int) =~= comps);
    out
}

/// Whether a path lies under one of the roots.
pub open spec fn admitted(roots: Seq<Seq<char>>, path: Seq<char>) -> bool {
    exists|i: int| 0 <= i < roots.len() && path_starts_with(path, #[trigger] roots[i])
}

/// What the guard answers for a path.
pub enum GuardOutcome {
    Allowed(Seq<char>),
    NotFound,
    Outside(Seq<char>),
}

/// The path that the guard checks: the canonical form where the file exists,
/// else (for a file to be written) the absolute form, normalized.
pub open spec fn guard_outcome(
    roots: Seq<Seq<char>>,
    absolute: Seq<char>,
    canonical: Option<Seq<char>>,
    is_writable: bool,
) -> GuardOutcome {
    if canonical is None && !is_writable {
        GuardOutcome::NotFound
    } else {
        let resolved = match canonical {
            Some(c) => c,
            None => normalize_spec(absolute),
        };
        if admitted(roots, resolved) {
            GuardOutcome::Allowed(resolved)
        } else {
            GuardOutcome::Outside(resolved)
        }
    }
}

pub open spec fn outcome_view(r: Result<String, PathError>) -> GuardOutcome {
    match r {
        Ok(p) => GuardOutcome::Allowed(p@),
        Err(PathError::NotFound) => GuardOutcome::NotFound,
        Err(PathError::OutsideRoots(p)) => GuardOutcome::Outside(p@),
    }
}

/// Why a path is refused.
#[derive(Debug)]
pub enum PathError {
    /// The file does not exist and is to be read.
    NotFound,
    /// The path, in canonical form, lies under no allowed root.
    OutsideRoots(String),
}

impl PathError {
    pub open spec fn message_spec(&self) -> Seq<char> {
        match self {
            PathError::NotFound => "File not found"@,
            PathError::OutsideRoots(p) => "Path "@ + debug_path(p@) + " is outside of allowed roots"@,
        }
    }

    /// The text that the error displays.
    pub fn message(&self) -> (m: String)
        ensures
            m@ == self.message_spec(),
    {
        match self {
            PathError::NotFound => String::from_str("File not found"),
            PathError::OutsideRoots(p) => {
                let mut m = String::from_str("Path ");
                let d = path_debug_text(p.as_str());
                m.append(d.as_str());
                m.append(" is outside of allowed roots");
                m
            },
        }
    }
}

/// The roots that exist, in order: each given root's canonical form, where it
/// has one.
pub open spec fn existing_roots(roots: Seq<Option<String>>) -> Seq<Seq<char>>
    decreases roots.len(),
{
    if roots.len() == 0 {
        Seq::empty()
    } else {
        let rest = existing_roots(roots.drop_last());
        match roots.last() {
            Some(r) => rest.push(r@),
            None => rest,
        }
    }
}

pub struct PathGuard {
    allowed_roots: Vec<String>,
}

impl PathGuard {
    pub closed spec fn roots(&self) -> Seq<Seq<char>> {
        self.allowed_roots@.map_values(|r: String| r@)
    }

    /// A guard for the given roots, each as its canonical form (`None` where
    /// the root could not be canonicalized, which drops it).
    pub fn new(roots: Vec<Option<String>>) -> (g: PathGuard)
        ensures
            g.roots() == existing_roots(roots@),
    {
        let mut kept: Vec<String> = Vec::new();
        let mut i: usize = 0;
        while i < roots.len()
            invariant
                0 <= i <= roots.len(),
                kept@.map_values(|r: String| r@) == existing_roots(roots@.take(i as int)),
            decreases roots.len() - i,
        {
            assert(roots@.take(i + 1).drop_last() =~= roots@.take(i as int));
            let ghost before = kept@;
            match &roots[i] {
                Some(r) => {
                    kept.push(r.clone());
                    assert(kept@.map_values(|r: String| r@) =~= before.map_values(|r: String| r@).push(
                        r@,
                    ));
                },
                None => {},
            }
            i = i + 1;
        }
        assert(roots@.take(i as int) =~= roots@);
        PathGuard { allowed_roots: kept }
    }

    /// Whether a path is under one of the roots.
    pub fn is_allowed(&self, path: &str) -> (b: bool)
        ensures
            b == admitted(self.roots(), path@),
    {
        let mut i: usize = 0;
        while i < self.allowed_roots.len()
            invariant
                0 <= i <= self.allowed_roots.len(),
                forall|j: int| 0 <= j < i ==> !path_starts_with(path@, #[trigger] self.roots()[j]),
            decreases self.allowed_roots.len() - i,
        {
            if starts_with(path, self.allowed_roots[i].as_str()) {
                assert(path_starts_with(path@, self.roots()[i as int]));
                return true;
            }
            i = i + 1;
        }
        false
    }

    /// Where a path may be used: its canonical form (`canonical`, `None`
    /// where the file does not exist) or, for a file to be written, its
    /// absolute form with `.` and `..` resolved; provided it lies under an
    /// allowed root.
    pub fn canonicalize_path(
        &self,
        absolute: &str,
        canonical: Option<String>,
        is_writable: bool,
    ) -> (r: Result<String, PathError>)
        ensures
            outcome_view(r) == guard_outcome(self.roots(), absolute@, opt_string_view(canonical), is_writable),
    {
        let resolved = match canonical {
            Some(c) => c,
            None => if is_writable {
                normalize(absolute)
            } else {
                return Err(PathError::NotFound);
            },
        };
        if self.is_allowed(resolved.as_str()) {
            Ok(resolved)
        } else {
            Err(PathError::OutsideRoots(resolved))
        }
    }

    /// Where a downloaded file goes: the requested path (its absolute form
    /// and, where it exists, its canonical form), or else a fresh file under
    /// the default downloads directory; either way as a file to be written,
    /// and only under an allowed root.
    pub fn download_target(
        &self,
        requested: Option<(String, Option<String>)>,
        peer_id: i64,
        message_id: i32,
    ) -> (r: Result<String, PathError>)
        ensures
            match requested {
                Some((absolute, canonical)) => outcome_view(r) == guard_outcome(
                    self.roots(),
                    absolute@,
                    opt_string_view(canonical),
                    true,
                ),
                None => exists|nonce: u32|
                    outcome_view(r) == #[trigger] guard_outcome(
                        self.roots(),
                        download_path_spec(peer_id, message_id, nonce),
                        None,
                        true,
                    ),
            },
    {
        match requested {
            Some((absolute, canonical)) => self.canonicalize_path(absolute.as_str(), canonical, true),
            None => {
                let fresh = fresh_download_path(peer_id, message_id);
                let ghost nonce = choose|nonce: u32| fresh@ == download_path_spec(peer_id, message_id, nonce);
                let r = self.canonicalize_path(fresh.as_str(), None, true);
                assert(outcome_view(r) == guard_outcome(
                    self.roots(),
                    download_path_spec(peer_id, message_id, nonce),
                    None,
                    true,
                ));
                r
            },
        }
    }
}

/// Whether a given root's canonical form is this path.
pub open spec fn given_as(root: Option<String>, canonical: Seq<char>) -> bool {
    root matches Some(r) && r@ == canonical
}

/// The guard keeps no root that it was not given: each root that it keeps is
/// the canonical form of one of the given roots, so a path that it admits
/// lies under one of them; and given no root that exists, it keeps none, so
/// it admits no path at all.
pub proof fn law_roots_come_from_given(roots: Seq<Option<String>>)
    ensures
        forall|i: int|
            0 <= i < existing_roots(roots).len() ==> exists|j: int|
                0 <= j < roots.len() && given_as(
                    #[trigger] roots[j],
                    #[trigger] existing_roots(roots)[i],
                ),
        (forall|j: int| 0 <= j < roots.len() ==> (#[trigger] roots[j]) is None) ==> existing_roots(
            roots,
        ).len() == 0,
    decreases roots.len(),
{
    if roots.len() > 0 {
        let init = roots.drop_last();
        law_roots_come_from_given(init);
        assert forall|i: int|
            #![trigger existing_roots(roots)[i]]
            0 <= i < existing_roots(roots).len() implies exists|j: int|
            0 <= j < roots.len() && given_as(#[trigger] roots[j], existing_roots(roots)[i]) by {
            if i < existing_roots(init).len() {
                let j = choose|j: int|
                    0 <= j < init.len() && given_as(
                        #[trigger] init[j],
                        existing_roots(init)[i],
                    );
                assert(roots[j] == init[j]);
            } else {
                assert(roots[roots.len() - 1] == roots.last());
            }
        }
        if forall|j: int| 0 <= j < roots.len() ==> (#[trigger] roots[j]) is None {
            assert forall|j: int| 0 <= j < init.len() implies (#[trigger] init[j]) is None by {
                assert(init[j] == roots[j]);
            }
            assert(roots[roots.len() - 1] is None);
        }
    }
}

/// The roots kept from two lists given one after the other are those kept
/// from the first, then those kept from the second.
proof fn lemma_existing_roots_concat(a: Seq<Option<String>>, b: Seq<Option<String>>)
    ensures
        existing_roots(a + b) == existing_roots(a) + existing_roots(b),
    decreases b.len(),
{
    if b.len() == 0 {
        assert(a + b =~= a);
        assert(existing_roots(a) + existing_roots(b) =~= existing_roots(a));
    } else {
        assert((a + b).drop_last() =~= a + b.drop_last());
        assert((a + b).last() == b.last());
        lemma_existing_roots_concat(a, b.drop_last());
        match b.last() {
            Some(r) => {
                assert(existing_roots(a) + existing_roots(b) =~= (existing_roots(a)
                    + existing_roots(b.drop_last())).push(r@));
            },
            None => {},
        }
    }
}

/// A guard built from two lists of roots admits a path exactly when a guard
/// built from either list admits it, so neither the order of the roots nor a
/// root given twice changes what is allowed; and it answers any request with
/// `Ok` exactly when one of the two guards would.
pub proof fn law_roots_union(
    a: Seq<Option<String>>,
    b: Seq<Option<String>>,
    absolute: Seq<char>,
    canonical: Option<Seq<char>>,
    is_writable: bool,
)
    ensures
        existing_roots(a + b) == existing_roots(a) + existing_roots(b),
        forall|path: Seq<char>|
            #[trigger] admitted(existing_roots(a + b), path) == (admitted(existing_roots(a), path)
                || admitted(existing_roots(b), path)),
        guard_outcome(existing_roots(a + b), absolute, canonical, is_writable) is Allowed == (
        guard_outcome(existing_roots(a), absolute, canonical, is_writable) is Allowed
            || guard_outcome(existing_roots(b), absolute, canonical, is_writable) is Allowed),
{
    lemma_existing_roots_concat(a, b);
    let ra = existing_roots(a);
    let rb = existing_roots(b);
    assert forall|path: Seq<char>|
        #[trigger] admitted(existing_roots(a + b), path) == (admitted(ra, path) || admitted(rb, path)) by {
        let all = ra + rb;
        if admitted(all, path) {
            let i = choose|i: int| 0 <= i < all.len() && path_starts_with(path, #[trigger] all[i]);
            if i < ra.len() {
                assert(all[i] == ra[i]);
            } else {
                assert(all[i] == rb[i - ra.len()]);
            }
        }
        if admitted(ra, path) {
            let i = choose|i: int| 0 <= i < ra.len() && path_starts_with(path, #[trigger] ra[i]);
            assert(all[i] == ra[i]);
        }
        if admitted(rb, path) {
            let i = choose|i: int| 0 <= i < rb.len() && path_starts_with(path, #[trigger] rb[i]);
            assert(all[ra.len() + i] == rb[i]);
        }
    }
    let resolved = match canonical {
        Some(c) => c,
        None => normalize_spec(absolute),
    };
    assert(admitted(existing_roots(a + b), resolved) == (admitted(ra, resolved) || admitted(rb, resolved)));
}

} // verus!
