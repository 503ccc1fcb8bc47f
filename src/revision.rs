//! Entities are kept as an append-only history of revisions. The current
//! state of an entity is its latest revision: the one with the latest creation
//! time, a larger revision id breaking a tie. Asking for `only_recent` records
//! is asking for the current revision of each entity among the records.
use vstd::prelude::*;

use crate::response::{
    Adminship, Committment, CourseData, CourseKeyData, CourseMembership, LocationData, SchoolData,
    SchoolDurationData, SchoolKeyData, SessionData, StayData, Subscription,
};

verus! {

/// A record that is one revision of an entity.
pub trait Revision {
    /// What identifies the entity that a revision belongs to.
    type Root;

    /// The entity that this revision belongs to.
    spec fn root(&self) -> Self::Root;

    /// When this revision was created.
    spec fn time(&self) -> i64;

    /// The id of this revision, larger for a later one.
    spec fn number(&self) -> i64;

    /// Whether `other` is a revision of the same entity.
    fn same_root(&self, other: &Self) -> (r: bool)
        ensures
            r == (self.root() == other.root()),
    ;

    /// When this revision was created.
    fn revision_time(&self) -> (r: i64)
        ensures
            r == self.time(),
    ;

    /// The id of this revision.
    fn revision_number(&self) -> (r: i64)
        ensures
            r == self.number(),
    ;
}

/// Whether revision `a`, at position `i` of a list, takes precedence over
/// revision `b`, at position `j`: the later creation time wins, then the larger
/// revision id, then the earlier position.
pub open spec fn supersedes<T: Revision>(a: T, i: int, b: T, j: int) -> bool {
    ||| a.time() > b.time()
    ||| a.time() == b.time() && a.number() > b.number()
    ||| a.time() == b.time() && a.number() == b.number() && i < j
}

/// Whether the row at position `i` is the current revision of its entity
/// among `rows`: it takes precedence over every other row of that entity.
pub open spec fn is_current<T: Revision>(rows: Seq<T>, i: int) -> bool {
    &&& 0 <= i < rows.len()
    &&& forall|j: int|
        #![trigger rows[j]]
        0 <= j < rows.len() && j != i && rows[j].root() == rows[i].root() ==> supersedes(
            rows[i],
            i,
            rows[j],
            j,
        )
}

/// Whether the row at position `i` is the current revision of its entity.
fn check_current<T: Revision>(rows: &Vec<T>, i: usize) -> (b: bool)
    requires
        i < rows.len(),
    ensures
        b == is_current(rows@, i as int),
{
    let n = rows.len();
    let ti = rows[i].revision_time();
    let ni = rows[i].revision_number();
    let mut j: usize = 0;
    while j < n
        invariant
            n == rows.len(),
            i < n,
            j <= n,
            ti == rows@[i as int].time(),
            ni == rows@[i as int].number(),
            forall|m: int|
                #![trigger rows@[m]]
                0 <= m < j && m != i && rows@[m].root() == rows@[i as int].root() ==> supersedes(
                    rows@[i as int],
                    i as int,
                    rows@[m],
                    m,
                ),
        decreases n - j,
    {
        if j != i && rows[i].same_root(&rows[j]) {
            let tj = rows[j].revision_time();
            let nj = rows[j].revision_number();
            let wins = ti > tj || (ti == tj && (ni > nj || (ni == nj && i < j)));
            if !wins {
                assert(rows@[j as int].root() == rows@[i as int].root());
                return false;
            }
        }
        j += 1;
    }
    true
}

/// The positions, in increasing order, of the current revisions among `rows`:
/// the rows that an `only_recent` query keeps.
pub fn current_revisions<T: Revision>(rows: &Vec<T>) -> (r: Vec<usize>)
    ensures
        forall|k: int, l: int| 0 <= k < l < r.len() ==> r[k] < r[l],
        forall|x: usize| r@.contains(x) <==> is_current(rows@, x as int),
{
    let n = rows.len();
    let mut r: Vec<usize> = Vec::new();
    let mut i: usize = 0;
    while i < n
        invariant
            n == rows.len(),
            i <= n,
            forall|k: int| 0 <= k < r.len() ==> r[k] < i,
            forall|k: int, l: int| 0 <= k < l < r.len() ==> r[k] < r[l],
            forall|x: usize| r@.contains(x) <==> (x < i && is_current(rows@, x as int)),
        decreases n - i,
    {
        let current = check_current(rows, i);
        let ghost before = r@;
        if current {
            r.push(i);
            assert forall|x: usize| r@.contains(x) <==> (x < i + 1 && is_current(rows@, x as int)) by {
                if x == i {
                    assert(r@[r@.len() - 1] == i);
                } else if r@.contains(x) {
                    let k = choose|k: int| 0 <= k < r@.len() && r@[k] == x;
                    assert(k < before.len());
                    assert(before.contains(x));
                } else if x < i && is_current(rows@, x as int) {
                    assert(before.contains(x));
                    let k = choose|k: int| 0 <= k < before.len() && before[k] == x;
                    assert(r@[k] == x);
                }
            }
        }
        i += 1;
    }
    r
}

/// Among the first `n` rows, of which at least one belongs to `root`, the one
/// row of `root` that takes precedence over all the others of `root`.
proof fn lemma_leader<T: Revision>(rows: Seq<T>, root: T::Root, n: int) -> (k: int)
    requires
        0 <= n <= rows.len(),
        exists|j: int| 0 <= j < n && rows[j].root() == root,
    ensures
        0 <= k < n,
        rows[k].root() == root,
        forall|j: int|
            #![trigger rows[j]]
            0 <= j < n && j != k && rows[j].root() == root ==> supersedes(rows[k], k, rows[j], j),
    decreases n,
{
    if exists|j: int| 0 <= j < n - 1 && rows[j].root() == root {
        let k0 = lemma_leader(rows, root, n - 1);
        if rows[n - 1].root() == root && supersedes(rows[n - 1], n - 1, rows[k0], k0) {
            n - 1
        } else {
            k0
        }
    } else {
        let w = choose|j: int| 0 <= j < n && rows[j].root() == root;
        assert(w == n - 1);
        n - 1
    }
}

/// Keeping the current revisions is grouping the rows by entity and keeping,
/// of each group, its latest row: the entity of every row has exactly one
/// current revision among the rows, and no row of that entity was created
/// after it.
pub proof fn current_revision_is_latest_per_entity<T: Revision>(rows: Seq<T>, i: int)
    requires
        0 <= i < rows.len(),
    ensures
        exists|k: int| #[trigger] is_current(rows, k) && rows[k].root() == rows[i].root(),
        forall|k: int|
            #[trigger] is_current(rows, k) && rows[k].root() == rows[i].root() ==> rows[k].time()
                >= rows[i].time(),
        forall|k: int, l: int|
            #[trigger] is_current(rows, k) && #[trigger] is_current(rows, l) && rows[k].root()
                == rows[l].root() ==> k == l,
{
    let k = lemma_leader(rows, rows[i].root(), rows.len() as int);
    assert(is_current(rows, k));
    assert forall|k: int| #[trigger] is_current(rows, k) && rows[k].root() == rows[i].root()
        implies rows[k].time() >= rows[i].time() by {
        if k != i {
            assert(supersedes(rows[k], k, rows[i], i));
        }
    }
    assert forall|k: int, l: int|
        #[trigger] is_current(rows, k) && #[trigger] is_current(rows, l) && rows[k].root()
            == rows[l].root() implies k == l by {
        if k != l {
            assert(supersedes(rows[k], k, rows[l], l));
            assert(supersedes(rows[l], l, rows[k], k));
        }
    }
}

/// A revision of the user who holds it.
impl Revision for Subscription {
    type Root = i64;

    open spec fn root(&self) -> i64 {
        self.creator_user_id
    }

    open spec fn time(&self) -> i64 {
        self.creation_time
    }

    open spec fn number(&self) -> i64 {
        self.subscription_id
    }

    /// Whether `other` is a revision of the same entity.
    fn same_root(&self, other: &Self) -> (r: bool) {
        self.creator_user_id == other.creator_user_id
    }

    fn revision_time(&self) -> (r: i64) {
        self.creation_time
    }

    fn revision_number(&self) -> (r: i64) {
        self.subscription_id
    }
}

/// A revision of its school.
impl Revision for SchoolData {
    type Root = i64;

    open spec fn root(&self) -> i64 {
        self.school.school_id
    }

    open spec fn time(&self) -> i64 {
        self.creation_time
    }

    open spec fn number(&self) -> i64 {
        self.school_data_id
    }

    /// Whether `other` is a revision of the same entity.
    fn same_root(&self, other: &Self) -> (r: bool) {
        self.school.school_id == other.school.school_id
    }

    fn revision_time(&self) -> (r: i64) {
        self.creation_time
    }

    fn revision_number(&self) -> (r: i64) {
        self.school_data_id
    }
}

/// A revision of its school duration.
impl Revision for SchoolDurationData {
    type Root = i64;

    open spec fn root(&self) -> i64 {
        self.school_duration.school_duration_id
    }

    open spec fn time(&self) -> i64 {
        self.creation_time
    }

    open spec fn number(&self) -> i64 {
        self.school_duration_data_id
    }

    /// Whether `other` is a revision of the same entity.
    fn same_root(&self, other: &Self) -> (r: bool) {
        self.school_duration.school_duration_id == other.school_duration.school_duration_id
    }

    fn revision_time(&self) -> (r: i64) {
        self.creation_time
    }

    fn revision_number(&self) -> (r: i64) {
        self.school_duration_data_id
    }
}

/// A revision of its school key, named by the key string.
impl Revision for SchoolKeyData {
    type Root = Seq<char>;

    open spec fn root(&self) -> Seq<char> {
        self.school_key.school_key_key@
    }

    open spec fn time(&self) -> i64 {
        self.creation_time
    }

    open spec fn number(&self) -> i64 {
        self.school_key_data_id
    }

    /// Whether `other` is a revision of the same entity.
    fn same_root(&self, other: &Self) -> (r: bool) {
        self.school_key.school_key_key == other.school_key.school_key_key
    }

    fn revision_time(&self) -> (r: i64) {
        self.creation_time
    }

    fn revision_number(&self) -> (r: i64) {
        self.school_key_data_id
    }
}

/// A revision of the user and the school that it links.
impl Revision for Adminship {
    type Root = (i64, i64);

    open spec fn root(&self) -> (i64, i64) {
        (self.user_id, self.school.school_id)
    }

    open spec fn time(&self) -> i64 {
        self.creation_time
    }

    open spec fn number(&self) -> i64 {
        self.adminship_id
    }

    /// Whether `other` is a revision of the same entity.
    fn same_root(&self, other: &Self) -> (r: bool) {
        self.user_id == other.user_id && self.school.school_id == other.school.school_id
    }

    fn revision_time(&self) -> (r: i64) {
        self.creation_time
    }

    fn revision_number(&self) -> (r: i64) {
        self.adminship_id
    }
}

/// A revision of its location.
impl Revision for LocationData {
    type Root = i64;

    open spec fn root(&self) -> i64 {
        self.location.location_id
    }

    open spec fn time(&self) -> i64 {
        self.creation_time
    }

    open spec fn number(&self) -> i64 {
        self.location_data_id
    }

    /// Whether `other` is a revision of the same entity.
    fn same_root(&self, other: &Self) -> (r: bool) {
        self.location.location_id == other.location.location_id
    }

    fn revision_time(&self) -> (r: i64) {
        self.creation_time
    }

    fn revision_number(&self) -> (r: i64) {
        self.location_data_id
    }
}

/// A revision of its course.
impl Revision for CourseData {
    type Root = i64;

    open spec fn root(&self) -> i64 {
        self.course.course_id
    }

    open spec fn time(&self) -> i64 {
        self.creation_time
    }

    open spec fn number(&self) -> i64 {
        self.course_data_id
    }

    /// Whether `other` is a revision of the same entity.
    fn same_root(&self, other: &Self) -> (r: bool) {
        self.course.course_id == other.course.course_id
    }

    fn revision_time(&self) -> (r: i64) {
        self.creation_time
    }

    fn revision_number(&self) -> (r: i64) {
        self.course_data_id
    }
}

/// A revision of its course key, named by the key string.
impl Revision for CourseKeyData {
    type Root = Seq<char>;

    open spec fn root(&self) -> Seq<char> {
        self.course_key.course_key_key@
    }

    open spec fn time(&self) -> i64 {
        self.creation_time
    }

    open spec fn number(&self) -> i64 {
        self.course_key_data_id
    }

    /// Whether `other` is a revision of the same entity.
    fn same_root(&self, other: &Self) -> (r: bool) {
        self.course_key.course_key_key == other.course_key.course_key_key
    }

    fn revision_time(&self) -> (r: i64) {
        self.creation_time
    }

    fn revision_number(&self) -> (r: i64) {
        self.course_key_data_id
    }
}

/// A revision of the user and the course that it links.
impl Revision for CourseMembership {
    type Root = (i64, i64);

    open spec fn root(&self) -> (i64, i64) {
        (self.user_id, self.course.course_id)
    }

    open spec fn time(&self) -> i64 {
        self.creation_time
    }

    open spec fn number(&self) -> i64 {
        self.course_membership_id
    }

    /// Whether `other` is a revision of the same entity.
    fn same_root(&self, other: &Self) -> (r: bool) {
        self.user_id == other.user_id && self.course.course_id == other.course.course_id
    }

    fn revision_time(&self) -> (r: i64) {
        self.creation_time
    }

    fn revision_number(&self) -> (r: i64) {
        self.course_membership_id
    }
}

/// A revision of its session.
impl Revision for SessionData {
    type Root = i64;

    open spec fn root(&self) -> i64 {
        self.session.session_id
    }

    open spec fn time(&self) -> i64 {
        self.creation_time
    }

    open spec fn number(&self) -> i64 {
        self.session_data_id
    }

    /// Whether `other` is a revision of the same entity.
    fn same_root(&self, other: &Self) -> (r: bool) {
        self.session.session_id == other.session.session_id
    }

    fn revision_time(&self) -> (r: i64) {
        self.creation_time
    }

    fn revision_number(&self) -> (r: i64) {
        self.session_data_id
    }
}

/// A revision of the attendee and the session that it links.
impl Revision for Committment {
    type Root = (i64, i64);

    open spec fn root(&self) -> (i64, i64) {
        (self.attendee_user_id, self.session.session_id)
    }

    open spec fn time(&self) -> i64 {
        self.creation_time
    }

    open spec fn number(&self) -> i64 {
        self.commitment_id
    }

    /// Whether `other` is a revision of the same entity.
    fn same_root(&self, other: &Self) -> (r: bool) {
        self.attendee_user_id == other.attendee_user_id && self.session.session_id == other.session.session_id
    }

    fn revision_time(&self) -> (r: i64) {
        self.creation_time
    }

    fn revision_number(&self) -> (r: i64) {
        self.commitment_id
    }
}

/// A revision of its stay.
impl Revision for StayData {
    type Root = i64;

    open spec fn root(&self) -> i64 {
        self.stay.stay_id
    }

    open spec fn time(&self) -> i64 {
        self.creation_time
    }

    open spec fn number(&self) -> i64 {
        self.stay_data_id
    }

    /// Whether `other` is a revision of the same entity.
    fn same_root(&self, other: &Self) -> (r: bool) {
        self.stay.stay_id == other.stay.stay_id
    }

    fn revision_time(&self) -> (r: i64) {
        self.creation_time
    }

    fn revision_number(&self) -> (r: i64) {
        self.stay_data_id
    }
}

} // verus!
