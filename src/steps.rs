//! Named workflow steps, the fuzzy resolution of reported step names, and
//! the cursor that marks the running step.
use vstd::prelude::*;
use crate::errors::ParsedError;
use crate::text::{
    chars_of, contains_seq, has_sub, is_whitespace_char, lemma_word_len_bound, trim_start, word_len,
};

verus! {

#[derive(Debug, Clone, Copy, PartialEq, Eq, Structural)]
pub enum StepState {
    Pending,
    Running,
    Complete,
    Failed,
    Skipped,
}

/// One named step and its state.
#[derive(Debug, Clone)]
pub struct StepStatus {
    pub name: String,
    pub status: StepState,
}

/// What `str::to_lowercase` makes of a string: Unicode lower-case mapping,
/// a function of the characters alone.
pub uninterp spec fn lower_of(s: Seq<char>) -> Seq<char>;

/// Relies on `str::to_lowercase`: the result depends on the characters alone.
#[verifier::external_body]
pub(crate) fn lowercase(s: &str) -> (r: String)
    ensures
        r@ == lower_of(s@),
{
    s.to_lowercase()
}

/// The first white-space-delimited word of `s`; empty when there is none.
pub open spec fn first_word(s: Seq<char>) -> Seq<char> {
    trim_start(s).subrange(0, word_len(trim_start(s)) as int)
}

/// The matching rule on lower-cased names: the tracked name contains the
/// reported one, or the tracked name's first word equals or is contained in
/// the reported name.
pub open spec fn lowered_match(step_lower: Seq<char>, name_lower: Seq<char>) -> bool {
    has_sub(step_lower, name_lower) || (first_word(step_lower).len() > 0 && (first_word(step_lower)
        == name_lower || has_sub(name_lower, first_word(step_lower))))
}

/// A tracked step named `step` matches the reported name `name`, ignoring case.
pub open spec fn names_match(step: Seq<char>, name: Seq<char>) -> bool {
    lowered_match(lower_of(step), lower_of(name))
}

/// The first word of `s`, as `split_whitespace().next()` gives it.
pub fn first_word_exec(s: &Vec<char>) -> (r: Vec<char>)
    ensures
        r@ == first_word(s@),
{
    let n = s.len();
    let mut a: usize = 0;
    assert(s@.subrange(0, n as int) =~= s@);
    while a < n && is_whitespace_char(s[a])
        invariant
            a <= n == s@.len(),
            trim_start(s@) == trim_start(s@.subrange(a as int, n as int)),
        decreases n - a,
    {
        assert(s@.subrange(a as int, n as int).drop_first() =~= s@.subrange(a + 1, n as int));
        a = a + 1;
    }
    proof {
        if a == 0 {
            assert(s@.subrange(0, n as int) =~= s@);
        }
    }
    let ghost t = s@.subrange(a as int, n as int);
    assert(trim_start(s@) == t);
    let mut r: Vec<char> = Vec::new();
    let mut b: usize = a;
    while b < n && !is_whitespace_char(s[b])
        invariant
            a <= b <= n == s@.len(),
            t == s@.subrange(a as int, n as int),
            r@ == s@.subrange(a as int, b as int),
            word_len(t) == (b - a) + word_len(s@.subrange(b as int, n as int)),
        decreases n - b,
    {
        assert(s@.subrange(b as int, n as int).drop_first() =~= s@.subrange(b + 1, n as int));
        r.push(s[b]);
        b = b + 1;
    }
    proof {
        lemma_word_len_bound(t);
        assert(word_len(s@.subrange(b as int, n as int)) == 0);
        assert(r@ =~= t.subrange(0, word_len(t) as int));
    }
    r
}

/// The matching rule on names that are already lower-cased.
pub fn step_matches_lowered(step_lower: &str, name_lower: &str) -> (r: bool)
    ensures
        r == lowered_match(step_lower@, name_lower@),
{
    let s = chars_of(step_lower);
    let n = chars_of(name_lower);
    if contains_seq(&s, &n) {
        return true;
    }
    let w = first_word_exec(&s);
    if w.len() > 0 {
        let same = w.len() == n.len() && contains_seq(&n, &w);
        proof {
            if w@.len() == n@.len() {
                if has_sub(n@, w@) {
                    let i = choose|i: int| crate::text::occurs_at(n@, w@, i);
                    assert(i == 0);
                    assert(n@.subrange(0, n@.len() as int) =~= n@);
                }
                if w@ == n@ {
                    assert(n@.subrange(0, n@.len() as int) =~= n@);
                    assert(crate::text::occurs_at(n@, w@, 0));
                }
            }
        }
        if same || contains_seq(&n, &w) {
            return true;
        }
    }
    false
}

/// Whether the tracked step answers to the reported name, ignoring case.
pub fn step_matches(step: &StepStatus, step_name: &str) -> (r: bool)
    ensures
        r == names_match(step.name@, step_name@),
{
    let step_lower = lowercase(step.name.as_str());
    let name_lower = lowercase(step_name);
    step_matches_lowered(step_lower.as_str(), name_lower.as_str())
}

/// `i` is the first step whose name matches `name`.
pub open spec fn is_first_match(steps: Seq<StepStatus>, name: Seq<char>, i: int) -> bool {
    0 <= i < steps.len() && names_match(steps[i].name@, name) && forall|j: int|
        0 <= j < i ==> !names_match(#[trigger] steps[j].name@, name)
}

/// No step's name matches `name`.
pub open spec fn no_match(steps: Seq<StepStatus>, name: Seq<char>) -> bool {
    forall|j: int| 0 <= j < steps.len() ==> !names_match(#[trigger] steps[j].name@, name)
}

/// The index of the first step that matches `step_name`.
pub fn find_step(steps: &Vec<StepStatus>, step_name: &str) -> (r: Option<usize>)
    ensures
        match r {
            Some(i) => is_first_match(steps@, step_name@, i as int),
            None => no_match(steps@, step_name@),
        },
{
    let mut i: usize = 0;
    while i < steps.len()
        invariant
            i <= steps@.len(),
            forall|j: int| 0 <= j < i ==> !names_match(#[trigger] steps@[j].name@, step_name@),
        decreases steps@.len() - i,
    {
        if step_matches(&steps[i], step_name) {
            return Some(i);
        }
        i = i + 1;
    }
    None
}

/// The state of step `i` after the step reported as `name` ended in state
/// `done` and the cursor moved on to `next`: a failed step stays failed, the
/// step under the cursor runs, the first match takes `done`.
pub open spec fn advanced(
    old_steps: Seq<StepStatus>,
    name: Seq<char>,
    done: StepState,
    next: int,
    i: int,
) -> StepState {
    if old_steps[i].status == StepState::Failed {
        StepState::Failed
    } else if i == next {
        StepState::Running
    } else if is_first_match(old_steps, name, i) {
        done
    } else {
        old_steps[i].status
    }
}

/// An ordered list of steps with a cursor on the step in progress and the
/// workflow's current error.
#[derive(Debug, Clone)]
pub struct StepTracker {
    steps: Vec<StepStatus>,
    step: usize,
    error: Option<String>,
}

impl StepTracker {
    pub closed spec fn steps_view(&self) -> Seq<StepStatus> {
        self.steps@
    }

    pub closed spec fn cursor(&self) -> nat {
        self.step as nat
    }

    pub closed spec fn error_view(&self) -> Option<Seq<char>> {
        match self.error {
            Some(e) => Some(e@),
            None => None,
        }
    }

    pub open spec fn wf(&self) -> bool {
        self.cursor() <= self.steps_view().len()
    }

    /// Steps with the given names; the first one runs, the others wait.
    pub fn new(names: &Vec<String>) -> (r: StepTracker)
        ensures
            r.wf(),
            r.cursor() == 0,
            r.error_view() is None,
            r.steps_view().len() == names@.len(),
            forall|i: int| 0 <= i < names@.len() ==> (#[trigger] r.steps_view()[i]).name == names@[i],
            forall|i: int|
                0 <= i < names@.len() ==> (#[trigger] r.steps_view()[i]).status == if i == 0 {
                    StepState::Running
                } else {
                    StepState::Pending
                },
    {
        let mut steps: Vec<StepStatus> = Vec::new();
        let mut k: usize = 0;
        while k < names.len()
            invariant
                k <= names@.len(),
                steps@.len() == k,
                forall|i: int| 0 <= i < k ==> (#[trigger] steps@[i]).name == names@[i],
                forall|i: int|
                    0 <= i < k ==> (#[trigger] steps@[i]).status == if i == 0 {
                        StepState::Running
                    } else {
                        StepState::Pending
                    },
            decreases names@.len() - k,
        {
            let status = if k == 0 {
                StepState::Running
            } else {
                StepState::Pending
            };
            steps.push(StepStatus { name: names[k].clone(), status });
            k = k + 1;
        }
        StepTracker { steps, step: 0, error: None }
    }

    pub fn steps(&self) -> (r: &Vec<StepStatus>)
        ensures
            r@ == self.steps_view(),
    {
        &self.steps
    }

    /// Index of the step in progress; equal to the number of steps once all are done.
    pub fn current(&self) -> (r: usize)
        ensures
            r == self.cursor(),
    {
        self.step
    }

    pub fn error(&self) -> (r: Option<String>)
        ensures
            match r {
                Some(e) => self.error_view() == Some(e@),
                None => self.error_view() is None,
            },
    {
        match &self.error {
            Some(e) => Some(e.clone()),
            None => None,
        }
    }

    fn advance(&mut self, step_name: &str, done: StepState)
        requires
            old(self).wf(),
            done != StepState::Failed,
        ensures
            final(self).wf(),
            final(self).error_view() == old(self).error_view(),
            final(self).cursor() == if old(self).cursor() < old(self).steps_view().len() {
                old(self).cursor() + 1
            } else {
                old(self).cursor()
            },
            final(self).steps_view().len() == old(self).steps_view().len(),
            forall|i: int|
                0 <= i < old(self).steps_view().len() ==> (#[trigger] final(self).steps_view()[i]).name
                    == old(self).steps_view()[i].name,
            forall|i: int|
                0 <= i < old(self).steps_view().len() ==> (#[trigger] final(self).steps_view()[i]).status
                    == advanced(
                    old(self).steps_view(),
                    step_name@,
                    done,
                    final(self).cursor() as int,
                    i,
                ),
    {
        let ghost old_steps = self.steps@;
        let found = find_step(&self.steps, step_name);
        if let Some(i) = found {
            if self.steps[i].status != StepState::Failed {
                self.steps[i].status = done;
            }
        }
        if self.step < self.steps.len() {
            self.step = self.step + 1;
        }
        if self.step < self.steps.len() && self.steps[self.step].status != StepState::Failed {
            self.steps[self.step].status = StepState::Running;
        }
        assert forall|i: int| 0 <= i < old_steps.len() implies (#[trigger] self.steps@[i]).status
            == advanced(old_steps, step_name@, done, self.step as int, i) by {
            if found is Some && i != found->0 {
                assert(!is_first_match(old_steps, step_name@, i)) by {
                    if is_first_match(old_steps, step_name@, i) {
                        if i < found->0 {
                        } else {
                            assert(!names_match(old_steps[found->0 as int].name@, step_name@));
                        }
                    }
                }
            }
        }
    }

    /// The step reported as `step_name` completed: the first matching step
    /// becomes `Complete`, the cursor moves on and the step under it runs.
    /// A failed step stays failed.
    pub fn mark_step_complete(&mut self, step_name: &str)
        requires
            old(self).wf(),
        ensures
            final(self).wf(),
            final(self).error_view() == old(self).error_view(),
            final(self).cursor() == if old(self).cursor() < old(self).steps_view().len() {
                old(self).cursor() + 1
            } else {
                old(self).cursor()
            },
            final(self).steps_view().len() == old(self).steps_view().len(),
            forall|i: int|
                0 <= i < old(self).steps_view().len() ==> (#[trigger] final(self).steps_view()[i]).name
                    == old(self).steps_view()[i].name,
            forall|i: int|
                0 <= i < old(self).steps_view().len() ==> (#[trigger] final(self).steps_view()[i]).status
                    == advanced(
                    old(self).steps_view(),
                    step_name@,
                    StepState::Complete,
                    final(self).cursor() as int,
                    i,
                ),
    {
        self.advance(step_name, StepState::Complete);
    }

    /// The step reported as `step_name` was skipped: as for completion, with
    /// the state `Skipped`.
    pub fn mark_step_skipped(&mut self, step_name: &str)
        requires
            old(self).wf(),
        ensures
            final(self).wf(),
            final(self).error_view() == old(self).error_view(),
            final(self).cursor() == if old(self).cursor() < old(self).steps_view().len() {
                old(self).cursor() + 1
            } else {
                old(self).cursor()
            },
            final(self).steps_view().len() == old(self).steps_view().len(),
            forall|i: int|
                0 <= i < old(self).steps_view().len() ==> (#[trigger] final(self).steps_view()[i]).name
                    == old(self).steps_view()[i].name,
            forall|i: int|
                0 <= i < old(self).steps_view().len() ==> (#[trigger] final(self).steps_view()[i]).status
                    == advanced(
                    old(self).steps_view(),
                    step_name@,
                    StepState::Skipped,
                    final(self).cursor() as int,
                    i,
                ),
    {
        self.advance(step_name, StepState::Skipped);
    }

    /// The step reported as `step_name` failed: the first matching step
    /// becomes `Failed` and the error's summary becomes the current error.
    /// The cursor stays where it is and no other step changes.
    pub fn mark_step_failed(&mut self, step_name: &str, error: ParsedError)
        requires
            old(self).wf(),
        ensures
            final(self).wf(),
            final(self).error_view() == Some(error.summary@),
            final(self).cursor() == old(self).cursor(),
            final(self).steps_view().len() == old(self).steps_view().len(),
            forall|i: int|
                0 <= i < old(self).steps_view().len() ==> (#[trigger] final(self).steps_view()[i]).name
                    == old(self).steps_view()[i].name,
            forall|i: int|
                0 <= i < old(self).steps_view().len() ==> (#[trigger] final(self).steps_view()[i]).status
                    == if is_first_match(old(self).steps_view(), step_name@, i) {
                    StepState::Failed
                } else {
                    old(self).steps_view()[i].status
                },
    {
        let ghost old_steps = self.steps@;
        let found = find_step(&self.steps, step_name);
        if let Some(i) = found {
            self.steps[i].status = StepState::Failed;
        }
        self.error = Some(error.summary);
        assert forall|i: int| 0 <= i < old_steps.len() implies (#[trigger] self.steps@[i]).status
            == if is_first_match(old_steps, step_name@, i) {
            StepState::Failed
        } else {
            old_steps[i].status
        } by {
            if found is Some && i != found->0 && is_first_match(old_steps, step_name@, i) {
                if i > found->0 {
                    assert(!names_match(old_steps[found->0 as int].name@, step_name@));
                }
            }
        }
    }
}

} // verus!
