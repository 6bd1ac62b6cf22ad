//! The schedule: for each person and chore that are assigned, when the chore
//! was last done and when it falls due again.
use vstd::prelude::*;
use vstd::string::*;
use crate::date::{calc_next_date, next_due_of, parsed_date, unknown_string, unknown_text};
use crate::entities::{Assignment, Chore, Person, Task};

verus! {

/// One line of the schedule.
#[derive(Clone, Debug)]
pub struct Schedule {
    pub name: String,
    pub description: String,
    pub level: u8,
    pub frequency: u8,
    pub last: String,
    pub next: String,
}

/// The content of a schedule line.
pub struct ScheduleView {
    pub name: Seq<char>,
    pub description: Seq<char>,
    pub level: u8,
    pub frequency: u8,
    pub last: Seq<char>,
    pub next: Seq<char>,
}

impl View for Schedule {
    type V = ScheduleView;

    open spec fn view(&self) -> ScheduleView {
        ScheduleView {
            name: self.name@,
            description: self.description@,
            level: self.level,
            frequency: self.frequency,
            last: self.last@,
            next: self.next@,
        }
    }
}

/// Whether `a` comes before `b` in the order of their characters' code points
/// (the order in which the store compares text).
pub open spec fn text_lt_from(a: Seq<char>, b: Seq<char>, i: nat) -> bool
    decreases a.len() - i,
{
    if i >= a.len() {
        i < b.len()
    } else if i >= b.len() {
        false
    } else if a[i as int] != b[i as int] {
        (a[i as int] as u32) < (b[i as int] as u32)
    } else {
        text_lt_from(a, b, i + 1)
    }
}

pub open spec fn text_lt(a: Seq<char>, b: Seq<char>) -> bool {
    text_lt_from(a, b, 0)
}

proof fn lemma_text_lt_irreflexive(a: Seq<char>, i: nat)
    ensures
        !text_lt_from(a, a, i),
    decreases a.len() - i,
{
    if i < a.len() {
        lemma_text_lt_irreflexive(a, i + 1);
    }
}

/// Whether `a` comes before `b` in the order of code points.
pub fn text_less(a: &String, b: &String) -> (r: bool)
    ensures
        r == text_lt(a@, b@),
{
    let sa = a.as_str();
    let sb = b.as_str();
    let la = sa.unicode_len();
    let lb = sb.unicode_len();
    let mut i: usize = 0;
    while i < la && i < lb && sa.get_char(i) == sb.get_char(i)
        invariant
            sa@ == a@,
            sb@ == b@,
            la == a@.len(),
            lb == b@.len(),
            i <= la,
            i <= lb,
            text_lt(a@, b@) == text_lt_from(a@, b@, i as nat),
        decreases la - i,
    {
        i = i + 1;
    }
    if i >= la {
        i < lb
    } else if i >= lb {
        false
    } else {
        (sa.get_char(i) as u32) < (sb.get_char(i) as u32)
    }
}

/// Whether task `t` records the person `p` doing the chore `c`.
pub open spec fn for_pair(t: Task, p: i32, c: i32) -> bool {
    t.person_id == p && t.chore_id == c
}

/// Whether `t` is a later record than `u`: a later day, or the same day and a
/// larger id.
pub open spec fn supersedes(t: Task, u: Task) -> bool {
    text_lt(u.done@, t.done@) || (u.done@ == t.done@ && u.id < t.id)
}

/// The latest record of `p` doing `c` among `tasks`.
pub open spec fn latest_task(tasks: Seq<Task>, p: i32, c: i32) -> Option<Task>
    decreases tasks.len(),
{
    if tasks.len() == 0 {
        None
    } else {
        let best = latest_task(tasks.drop_last(), p, c);
        let t = tasks.last();
        if for_pair(t, p, c) {
            match best {
                Some(b) => if supersedes(t, b) { Some(t) } else { Some(b) },
                None => Some(t),
            }
        } else {
            best
        }
    }
}

/// Finds the latest record of `p` doing `c`, by its position.
pub fn latest_task_index(tasks: &Vec<Task>, p: i32, c: i32) -> (r: Option<usize>)
    ensures
        match r {
            Some(k) => k < tasks@.len() && latest_task(tasks@, p, c) == Some(tasks@[k as int]),
            None => latest_task(tasks@, p, c) is None,
        },
{
    let mut best: Option<usize> = None;
    let mut i: usize = 0;
    while i < tasks.len()
        invariant
            i <= tasks@.len(),
            match best {
                Some(k) => k < i && latest_task(tasks@.subrange(0, i as int), p, c) == Some(
                    tasks@[k as int],
                ),
                None => latest_task(tasks@.subrange(0, i as int), p, c) is None,
            },
        decreases tasks.len() - i,
    {
        assert(tasks@.subrange(0, i as int + 1).drop_last() =~= tasks@.subrange(0, i as int));
        let t = &tasks[i];
        if t.person_id == p && t.chore_id == c {
            match best {
                Some(k) => {
                    let b = &tasks[k];
                    if text_less(&b.done, &t.done) || (b.done == t.done && b.id < t.id) {
                        best = Some(i);
                    }
                },
                None => {
                    best = Some(i);
                },
            }
        }
        i = i + 1;
    }
    assert(tasks@.subrange(0, i as int) =~= tasks@);
    best
}

/// The first person with the given id.
pub open spec fn person_with_id(persons: Seq<Person>, id: i32) -> Option<Person>
    decreases persons.len(),
{
    if persons.len() == 0 {
        None
    } else if persons[0].id == id {
        Some(persons[0])
    } else {
        person_with_id(persons.drop_first(), id)
    }
}

/// The first chore with the given id.
pub open spec fn chore_with_id(chores: Seq<Chore>, id: i32) -> Option<Chore>
    decreases chores.len(),
{
    if chores.len() == 0 {
        None
    } else if chores[0].id == id {
        Some(chores[0])
    } else {
        chore_with_id(chores.drop_first(), id)
    }
}

fn find_person(persons: &Vec<Person>, id: i32) -> (r: Option<usize>)
    ensures
        match r {
            Some(k) => k < persons@.len() && person_with_id(persons@, id) == Some(
                persons@[k as int],
            ),
            None => person_with_id(persons@, id) is None,
        },
{
    let mut i: usize = 0;
    assert(persons@.skip(0) =~= persons@);
    while i < persons.len()
        invariant
            i <= persons@.len(),
            person_with_id(persons@, id) == person_with_id(persons@.skip(i as int), id),
        decreases persons.len() - i,
    {
        assert(persons@.skip(i as int).drop_first() =~= persons@.skip(i as int + 1));
        if persons[i].id == id {
            return Some(i);
        }
        i = i + 1;
    }
    None
}

fn find_chore(chores: &Vec<Chore>, id: i32) -> (r: Option<usize>)
    ensures
        match r {
            Some(k) => k < chores@.len() && chore_with_id(chores@, id) == Some(
                chores@[k as int],
            ),
            None => chore_with_id(chores@, id) is None,
        },
{
    let mut i: usize = 0;
    assert(chores@.skip(0) =~= chores@);
    while i < chores.len()
        invariant
            i <= chores@.len(),
            chore_with_id(chores@, id) == chore_with_id(chores@.skip(i as int), id),
        decreases chores.len() - i,
    {
        assert(chores@.skip(i as int).drop_first() =~= chores@.skip(i as int + 1));
        if chores[i].id == id {
            return Some(i);
        }
        i = i + 1;
    }
    None
}

/// When `p` last did `c`: the `done` of the latest record, else "unknown".
pub open spec fn last_done(tasks: Seq<Task>, p: i32, c: i32) -> Seq<char> {
    match latest_task(tasks, p, c) {
        Some(t) => t.done@,
        None => unknown_text(),
    }
}

/// When `c`, done every `frequency` days, is next due from `p`.
pub open spec fn next_due(tasks: Seq<Task>, p: i32, c: i32, frequency: u8) -> Seq<char> {
    match latest_task(tasks, p, c) {
        Some(t) => next_due_of(parsed_date(t.done@), frequency as int),
        None => unknown_text(),
    }
}

/// The schedule line of an assignment, where its person and chore exist.
pub open spec fn schedule_row(
    persons: Seq<Person>,
    chores: Seq<Chore>,
    a: Assignment,
    tasks: Seq<Task>,
) -> Option<ScheduleView> {
    match (person_with_id(persons, a.person_id), chore_with_id(chores, a.chore_id)) {
        (Some(p), Some(c)) => Some(
            ScheduleView {
                name: p.name@,
                description: c.description@,
                level: c.level,
                frequency: c.frequency,
                last: last_done(tasks, p.id, c.id),
                next: next_due(tasks, p.id, c.id, c.frequency),
            },
        ),
        _ => None,
    }
}

/// Whether some assignment in `before` joins the same person and chore as `a`.
pub open spec fn pair_seen(before: Seq<Assignment>, a: Assignment) -> bool {
    exists|j: int|
        0 <= j < before.len() && #[trigger] before[j].person_id == a.person_id
            && before[j].chore_id == a.chore_id
}

/// The schedule: one line per assigned (person, chore) pair, in the order in
/// which the pairs were first assigned.
pub open spec fn schedules_of(
    persons: Seq<Person>,
    chores: Seq<Chore>,
    assignments: Seq<Assignment>,
    tasks: Seq<Task>,
) -> Seq<ScheduleView>
    decreases assignments.len(),
{
    if assignments.len() == 0 {
        Seq::empty()
    } else {
        let before = schedules_of(persons, chores, assignments.drop_last(), tasks);
        let a = assignments.last();
        if pair_seen(assignments.drop_last(), a) {
            before
        } else {
            match schedule_row(persons, chores, a, tasks) {
                Some(r) => before.push(r),
                None => before,
            }
        }
    }
}

fn seen_before(assignments: &Vec<Assignment>, i: usize) -> (r: bool)
    requires
        i < assignments@.len(),
    ensures
        r == pair_seen(assignments@.subrange(0, i as int), assignments@[i as int]),
{
    let a = assignments[i];
    let ghost before = assignments@.subrange(0, i as int);
    let mut j: usize = 0;
    while j < i
        invariant
            i < assignments@.len(),
            a == assignments@[i as int],
            before == assignments@.subrange(0, i as int),
            j <= i,
            forall|k: int|
                0 <= k < j ==> !(#[trigger] before[k].person_id == a.person_id
                    && before[k].chore_id == a.chore_id),
        decreases i - j,
    {
        if assignments[j].person_id == a.person_id && assignments[j].chore_id == a.chore_id {
            assert(before[j as int].person_id == a.person_id);
            return true;
        }
        j = j + 1;
    }
    false
}

fn row_for(persons: &Vec<Person>, chores: &Vec<Chore>, a: Assignment, tasks: &Vec<Task>) -> (r:
    Option<Schedule>)
    ensures
        match r {
            Some(s) => schedule_row(persons@, chores@, a, tasks@) == Some(s@),
            None => schedule_row(persons@, chores@, a, tasks@) is None,
        },
{
    let pi = match find_person(persons, a.person_id) {
        Some(k) => k,
        None => return None,
    };
    let ci = match find_chore(chores, a.chore_id) {
        Some(k) => k,
        None => return None,
    };
    let p = &persons[pi];
    let c = &chores[ci];
    let (last, next) = match latest_task_index(tasks, p.id, c.id) {
        Some(k) => (tasks[k].done.clone(), calc_next_date(tasks[k].done.as_str(), c.frequency)),
        None => (unknown_string(), unknown_string()),
    };
    Some(
        Schedule {
            name: p.name.clone(),
            description: c.description.clone(),
            level: c.level,
            frequency: c.frequency,
            last,
            next,
        },
    )
}

/// Derives the schedule from the four tables.
pub fn derive_schedules(
    persons: &Vec<Person>,
    chores: &Vec<Chore>,
    assignments: &Vec<Assignment>,
    tasks: &Vec<Task>,
) -> (r: Vec<Schedule>)
    ensures
        r@.map_values(|s: Schedule| s@) == schedules_of(persons@, chores@, assignments@, tasks@),
{
    let mut out: Vec<Schedule> = Vec::new();
    let mut i: usize = 0;
    while i < assignments.len()
        invariant
            i <= assignments@.len(),
            out@.map_values(|s: Schedule| s@) == schedules_of(
                persons@,
                chores@,
                assignments@.subrange(0, i as int),
                tasks@,
            ),
        decreases assignments.len() - i,
    {
        let ghost sub = assignments@.subrange(0, i as int + 1);
        assert(sub.drop_last() =~= assignments@.subrange(0, i as int));
        assert(sub.last() == assignments@[i as int]);
        if !seen_before(assignments, i) {
            match row_for(persons, chores, assignments[i], tasks) {
                Some(s) => {
                    let ghost prev = out@;
                    out.push(s);
                    assert(out@.map_values(|s: Schedule| s@) =~= prev.map_values(
                        |s: Schedule| s@,
                    ).push(s@));
                },
                None => {},
            }
        }
        i = i + 1;
    }
    assert(assignments@.subrange(0, i as int) =~= assignments@);
    out
}

proof fn lemma_no_record(tasks: Seq<Task>, p: i32, c: i32)
    requires
        forall|j: int| 0 <= j < tasks.len() ==> !for_pair(#[trigger] tasks[j], p, c),
    ensures
        latest_task(tasks, p, c) is None,
    decreases tasks.len(),
{
    if tasks.len() > 0 {
        let rest = tasks.drop_last();
        assert forall|j: int| 0 <= j < rest.len() implies !for_pair(#[trigger] rest[j], p, c) by {
            assert(rest[j] == tasks[j]);
        }
        lemma_no_record(rest, p, c);
        assert(!for_pair(tasks[tasks.len() - 1], p, c));
    }
}

proof fn lemma_one_record(tasks: Seq<Task>, p: i32, c: i32, k: int)
    requires
        0 <= k < tasks.len(),
        for_pair(tasks[k], p, c),
        forall|j: int| 0 <= j < tasks.len() && j != k ==> !for_pair(#[trigger] tasks[j], p, c),
    ensures
        latest_task(tasks, p, c) == Some(tasks[k]),
    decreases tasks.len(),
{
    let rest = tasks.drop_last();
    if k == tasks.len() - 1 {
        assert forall|j: int| 0 <= j < rest.len() implies !for_pair(#[trigger] rest[j], p, c) by {
            assert(rest[j] == tasks[j]);
        }
        lemma_no_record(rest, p, c);
    } else {
        assert forall|j: int| 0 <= j < rest.len() && j != k implies !for_pair(
            #[trigger] rest[j],
            p,
            c,
        ) by {
            assert(rest[j] == tasks[j]);
        }
        lemma_one_record(rest, p, c, k);
        assert(!for_pair(tasks[tasks.len() - 1], p, c));
    }
}

proof fn lemma_person_with_id(persons: Seq<Person>, id: i32)
    ensures
        person_with_id(persons, id) matches Some(q) ==> q.id == id,
    decreases persons.len(),
{
    if persons.len() > 0 && persons[0].id != id {
        lemma_person_with_id(persons.drop_first(), id);
    }
}

proof fn lemma_chore_with_id(chores: Seq<Chore>, id: i32)
    ensures
        chore_with_id(chores, id) matches Some(q) ==> q.id == id,
    decreases chores.len(),
{
    if chores.len() > 0 && chores[0].id != id {
        lemma_chore_with_id(chores.drop_first(), id);
    }
}

/// Where the only record of a person doing an assigned chore was made on the
/// day `done`, the schedule line of that assignment shows `done` as the last
/// day and, as the next, `done` plus the chore's frequency in days.
pub proof fn law_single_record(
    persons: Seq<Person>,
    chores: Seq<Chore>,
    a: Assignment,
    tasks: Seq<Task>,
    k: int,
)
    requires
        0 <= k < tasks.len(),
        for_pair(tasks[k], a.person_id, a.chore_id),
        forall|j: int|
            0 <= j < tasks.len() && j != k ==> !for_pair(#[trigger] tasks[j], a.person_id, a.chore_id),
        person_with_id(persons, a.person_id) is Some,
        chore_with_id(chores, a.chore_id) is Some,
    ensures
        schedule_row(persons, chores, a, tasks) matches Some(r) && r.last == tasks[k].done@
            && r.next == next_due_of(parsed_date(tasks[k].done@), r.frequency as int),
{
    lemma_person_with_id(persons, a.person_id);
    lemma_chore_with_id(chores, a.chore_id);
    lemma_one_record(tasks, a.person_id, a.chore_id, k);
}

/// Of two records of a person doing a chore on the same day, the one with the
/// larger id is the latest.
pub proof fn law_same_day_larger_id(tasks: Seq<Task>, p: i32, c: i32, k1: int, k2: int)
    requires
        0 <= k1 < tasks.len(),
        0 <= k2 < tasks.len(),
        k1 != k2,
        for_pair(tasks[k1], p, c),
        for_pair(tasks[k2], p, c),
        forall|j: int|
            0 <= j < tasks.len() && j != k1 && j != k2 ==> !for_pair(#[trigger] tasks[j], p, c),
        tasks[k1].done@ == tasks[k2].done@,
        tasks[k1].id < tasks[k2].id,
    ensures
        latest_task(tasks, p, c) == Some(tasks[k2]),
    decreases tasks.len(),
{
    let n = tasks.len() - 1;
    let rest = tasks.drop_last();
    lemma_text_lt_irreflexive(tasks[k1].done@, 0);
    if n == k2 {
        assert forall|j: int| 0 <= j < rest.len() && j != k1 implies !for_pair(
            #[trigger] rest[j],
            p,
            c,
        ) by {
            assert(rest[j] == tasks[j]);
        }
        lemma_one_record(rest, p, c, k1);
    } else if n == k1 {
        assert forall|j: int| 0 <= j < rest.len() && j != k2 implies !for_pair(
            #[trigger] rest[j],
            p,
            c,
        ) by {
            assert(rest[j] == tasks[j]);
        }
        lemma_one_record(rest, p, c, k2);
    } else {
        assert forall|j: int| 0 <= j < rest.len() && j != k1 && j != k2 implies !for_pair(
            #[trigger] rest[j],
            p,
            c,
        ) by {
            assert(rest[j] == tasks[j]);
        }
        law_same_day_larger_id(rest, p, c, k1, k2);
        assert(!for_pair(tasks[n], p, c));
    }
}

} // verus!
