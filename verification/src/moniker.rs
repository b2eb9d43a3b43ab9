//! Monikers: structured identifiers locating component instances in the
//! instance tree. An absolute moniker is the ordered path of child
//! identifiers from the tree root; a relative moniker describes a walk from
//! one instance to another through their common ancestor.

use vstd::prelude::*;

verus! {

/// The spec-level value of a relative moniker: the segments walked upward
/// from the source to the common ancestor (in walking order), and the
/// segments walked downward from the ancestor to the target.
pub struct RelativeMonikerView {
    pub up: Seq<Seq<char>>,
    pub down: Seq<Seq<char>>,
}

/// Compares two vectors of path segments for (deep) equality.
fn segments_eq(a: &Vec<String>, b: &Vec<String>) -> (r: bool)
    ensures
        r == (a.deep_view() == b.deep_view()),
{
    if a.len() != b.len() {
        assert(a.deep_view().len() != b.deep_view().len());
        return false;
    }
    let n = a.len();
    let mut i: usize = 0;
    while i < n
        invariant
            n == a.len() == b.len(),
            a.deep_view().len() == n,
            b.deep_view().len() == n,
            i <= n,
            forall|j: int| 0 <= j < i ==> a.deep_view()[j] == b.deep_view()[j],
        decreases n - i,
    {
        if !(a[i] == b[i]) {
            assert(a.deep_view()[i as int] != b.deep_view()[i as int]);
            return false;
        }
        i = i + 1;
    }
    proof {
        assert(a.deep_view() =~= b.deep_view());
    }
    true
}

/// An absolute moniker: the ordered sequence of child identifiers from the
/// tree root down to an instance. The root itself is the empty sequence.
/// Equality is structural.
#[derive(Debug)]
pub struct AbsoluteMoniker {
    path: Vec<String>,
}

impl View for AbsoluteMoniker {
    type V = Seq<Seq<char>>;

    closed spec fn view(&self) -> Seq<Seq<char>> {
        self.path.deep_view()
    }
}

impl DeepView for AbsoluteMoniker {
    type V = Seq<Seq<char>>;

    open spec fn deep_view(&self) -> Seq<Seq<char>> {
        self.view()
    }
}

impl AbsoluteMoniker {
    pub fn new(path: Vec<String>) -> (r: AbsoluteMoniker)
        ensures
            r@ == path.deep_view(),
    {
        AbsoluteMoniker { path }
    }

    /// The moniker of the tree root: the empty path.
    pub fn root() -> (r: AbsoluteMoniker)
        ensures
            r@ == Seq::<Seq<char>>::empty(),
    {
        AbsoluteMoniker { path: Vec::new() }
    }

    pub fn path(&self) -> (r: &Vec<String>)
        ensures
            r.deep_view() == self@,
    {
        &self.path
    }

    pub fn is_root(&self) -> (r: bool)
        ensures
            r == (self@.len() == 0),
    {
        self.path.len() == 0
    }
}

impl Clone for AbsoluteMoniker {
    fn clone(&self) -> (r: AbsoluteMoniker)
        ensures
            r@ == self@,
    {
        AbsoluteMoniker { path: clone_segments(&self.path) }
    }
}

impl PartialEq for AbsoluteMoniker {
    fn eq(&self, other: &AbsoluteMoniker) -> (r: bool) {
        segments_eq(&self.path, &other.path)
    }
}

impl vstd::std_specs::cmp::PartialEqSpecImpl for AbsoluteMoniker {
    open spec fn obeys_eq_spec() -> bool {
        true
    }

    open spec fn eq_spec(&self, other: &AbsoluteMoniker) -> bool {
        self@ == other@
    }
}

/// Clones a vector of path segments, preserving its value.
fn clone_segments(a: &Vec<String>) -> (r: Vec<String>)
    ensures
        r.deep_view() == a.deep_view(),
{
    let mut r: Vec<String> = Vec::new();
    let n = a.len();
    let mut i: usize = 0;
    while i < n
        invariant
            n == a.len(),
            i <= n,
            r.deep_view().len() == i,
            forall|j: int| 0 <= j < i ==> r.deep_view()[j] == a.deep_view()[j],
        decreases n - i,
    {
        r.push(a[i].clone());
        i = i + 1;
    }
    proof {
        assert(r.deep_view() =~= a.deep_view());
    }
    r
}

/// The length of the longest common prefix of `a` and `b`, counted from
/// position `i`.
pub open spec fn common_prefix_len_from(a: Seq<Seq<char>>, b: Seq<Seq<char>>, i: int) -> int
    decreases a.len() - i,
{
    if i < 0 || i >= a.len() || i >= b.len() || a[i] != b[i] {
        i
    } else {
        common_prefix_len_from(a, b, i + 1)
    }
}

/// The length of the longest common prefix of `a` and `b`.
pub open spec fn common_prefix_len(a: Seq<Seq<char>>, b: Seq<Seq<char>>) -> int {
    common_prefix_len_from(a, b, 0)
}

/// A relative moniker: how to walk from a source instance to a target
/// instance through their common ancestor. `down_path` is non-empty whenever
/// the target lies strictly below the ancestor.
#[derive(Debug)]
pub struct RelativeMoniker {
    up_path: Vec<String>,
    down_path: Vec<String>,
}

impl View for RelativeMoniker {
    type V = RelativeMonikerView;

    closed spec fn view(&self) -> RelativeMonikerView {
        RelativeMonikerView { up: self.up_path.deep_view(), down: self.down_path.deep_view() }
    }
}

impl RelativeMoniker {
    pub fn new(up_path: Vec<String>, down_path: Vec<String>) -> (r: RelativeMoniker)
        ensures
            r@.up == up_path.deep_view(),
            r@.down == down_path.deep_view(),
    {
        RelativeMoniker { up_path, down_path }
    }

    /// Computes the relative moniker that walks from `from` to `to`: up from
    /// `from` to their common ancestor, then down to `to`.
    pub fn from_absolute(from: &AbsoluteMoniker, to: &AbsoluteMoniker) -> (r: RelativeMoniker)
        ensures
            r@.up == from@.skip(common_prefix_len(from@, to@)).reverse(),
            r@.down == to@.skip(common_prefix_len(from@, to@)),
    {
        let a = &from.path;
        let b = &to.path;
        let mut cpl: usize = 0;
        while cpl < a.len() && cpl < b.len() && a[cpl] == b[cpl]
            invariant
                0 <= cpl <= a.len(),
                0 <= cpl <= b.len(),
                a.deep_view() == from@,
                b.deep_view() == to@,
                common_prefix_len(from@, to@) == common_prefix_len_from(from@, to@, cpl as int),
            decreases a.len() - cpl,
        {
            proof {
                assert(from@[cpl as int] == to@[cpl as int]);
            }
            cpl = cpl + 1;
        }
        proof {
            assert(common_prefix_len_from(from@, to@, cpl as int) == cpl as int);
        }
        let ghost gcpl: int = cpl as int;

        let mut up: Vec<String> = Vec::new();
        let mut j: usize = a.len();
        while j > cpl
            invariant
                cpl <= j <= a.len(),
                a.deep_view() == from@,
                from@.len() == a.len(),
                up.deep_view().len() == a.len() - j,
                forall|t: int|
                    0 <= t < a.len() - j ==> up.deep_view()[t] == from@[a.len() - 1 - t],
            decreases j,
        {
            j = j - 1;
            let ghost pre = up.deep_view();
            up.push(a[j].clone());
            proof {
                assert forall|t: int| 0 <= t < a.len() - j implies up.deep_view()[t] == from@[a.len()
                    - 1 - t] by {
                    assert(up.deep_view()[t] == up@[t].deep_view());
                    if t < pre.len() {
                        assert(up@[t].deep_view() == pre[t]);
                    } else {
                        assert(up@[t].deep_view() == a@[j as int].deep_view());
                        assert(from@[j as int] == a@[j as int].deep_view());
                    }
                }
            }
        }

        let mut down: Vec<String> = Vec::new();
        let mut k: usize = cpl;
        while k < b.len()
            invariant
                cpl <= k <= b.len(),
                b.deep_view() == to@,
                to@.len() == b.len(),
                down.deep_view().len() == k - cpl,
                forall|t: int| 0 <= t < k - cpl ==> down.deep_view()[t] == to@[cpl + t],
            decreases b.len() - k,
        {
            let ghost pre = down.deep_view();
            down.push(b[k].clone());
            k = k + 1;
            proof {
                assert forall|t: int| 0 <= t < k - cpl implies down.deep_view()[t] == to@[cpl + t] by {
                    assert(down.deep_view()[t] == down@[t].deep_view());
                    if t < pre.len() {
                        assert(down@[t].deep_view() == pre[t]);
                    } else {
                        assert(down@[t].deep_view() == b@[k - 1].deep_view());
                        assert(to@[k - 1] == b@[k - 1].deep_view());
                    }
                }
            }
        }
        proof {
            assert(up.deep_view() =~= from@.skip(gcpl).reverse());
            assert(down.deep_view() =~= to@.skip(gcpl));
        }
        RelativeMoniker { up_path: up, down_path: down }
    }

    pub fn up_path(&self) -> (r: &Vec<String>)
        ensures
            r.deep_view() == self@.up,
    {
        &self.up_path
    }

    pub fn down_path(&self) -> (r: &Vec<String>)
        ensures
            r.deep_view() == self@.down,
    {
        &self.down_path
    }
}

impl Clone for RelativeMoniker {
    fn clone(&self) -> (r: RelativeMoniker)
        ensures
            r@ == self@,
    {
        RelativeMoniker {
            up_path: clone_segments(&self.up_path),
            down_path: clone_segments(&self.down_path),
        }
    }
}

impl PartialEq for RelativeMoniker {
    fn eq(&self, other: &RelativeMoniker) -> (r: bool) {
        segments_eq(&self.up_path, &other.up_path) && segments_eq(
            &self.down_path,
            &other.down_path,
        )
    }
}

impl vstd::std_specs::cmp::PartialEqSpecImpl for RelativeMoniker {
    open spec fn obeys_eq_spec() -> bool {
        true
    }

    open spec fn eq_spec(&self, other: &RelativeMoniker) -> bool {
        self@.up == other@.up && self@.down == other@.down
    }
}

} // verus!
