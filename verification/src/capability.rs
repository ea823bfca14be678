//! The capability ports: the four behaviours that a caller can plug into the
//! editing, and what each of them does where the caller plugs in nothing.

use vstd::prelude::*;

verus! {

/// What a validator says of the input when the user submits it.
#[derive(Clone, Copy, Debug, PartialEq, Eq, Structural)]
pub enum ValidationResult {
    /// The input is accepted: the read ends and returns it.
    Valid,
    /// The input is refused: the buffer stays open as it is.
    Invalid,
    /// The input goes on in a further line.
    Incomplete,
}

/// One proposal of a completer.
#[derive(Clone, Debug)]
pub struct Candidate {
    /// What the user is shown.
    pub display: String,
    /// What is put into the line.
    pub replacement: String,
}

/// The mathematical content of a candidate.
pub struct CandidateModel {
    pub display: Seq<char>,
    pub replacement: Seq<char>,
}

impl View for Candidate {
    type V = CandidateModel;

    open spec fn view(&self) -> CandidateModel {
        CandidateModel { display: self.display@, replacement: self.replacement@ }
    }
}

/// The mathematical content of a list of candidates.
pub open spec fn candidate_models(candidates: Seq<Candidate>) -> Seq<CandidateModel> {
    Seq::new(candidates.len(), |i: int| candidates[i]@)
}

/// Proposes completions of the text before the cursor.
pub trait Completer {
    /// The proposals for `line` with the cursor at `pos`, and the offset from
    /// which a proposal replaces the line up to the cursor. Without an
    /// implementation there are no proposals.
    fn complete(&self, line: &str, pos: usize) -> (found: (usize, Vec<Candidate>))
        default_ensures
            found.0 == 0,
            found.1@.len() == 0,
    {
        (0, Vec::new())
    }
}

/// Changes how text is shown, and nothing else.
pub trait Highlighter {
    /// How `line` is shown with the cursor at `pos`. Without an
    /// implementation, as it is.
    fn highlight(&self, line: &str, pos: usize) -> (shown: String)
        default_ensures
            shown@ == line@,
    {
        line.to_owned()
    }

    /// How the prompt is shown. Without an implementation, as it is.
    fn highlight_prompt(&self, prompt: &str) -> (shown: String)
        default_ensures
            shown@ == prompt@,
    {
        prompt.to_owned()
    }

    /// How a hint is shown. Without an implementation, as it is.
    fn highlight_hint(&self, hint: &str) -> (shown: String)
        default_ensures
            shown@ == hint@,
    {
        hint.to_owned()
    }

    /// How a candidate is shown. Without an implementation, as it is.
    fn highlight_candidate(&self, candidate: &str) -> (shown: String)
        default_ensures
            shown@ == candidate@,
    {
        candidate.to_owned()
    }
}

/// Proposes text to show behind the cursor.
pub trait Hinter {
    /// The hint for `line` with the cursor at `pos`. Without an
    /// implementation there is none.
    fn hint(&self, line: &str, pos: usize) -> (hint: Option<String>)
        default_ensures
            hint is None,
    {
        None
    }
}

/// Judges the input when the user submits it.
pub trait Validator {
    /// The verdict on `input`. Without an implementation every input is
    /// valid.
    fn validate(&self, input: &str) -> (verdict: ValidationResult)
        default_ensures
            verdict == ValidationResult::Valid,
    {
        ValidationResult::Valid
    }

    /// Whether the input is judged after every change, not only on submit.
    /// Without an implementation it is not.
    fn validate_while_typing(&self) -> (always: bool)
        default_ensures
            !always,
    {
        false
    }
}

/// All four capabilities in one value.
pub trait Helper: Completer + Highlighter + Hinter + Validator {

}

/// The helper of a caller who plugs in nothing: every capability behaves as
/// it does without an implementation.
#[derive(Clone, Copy, Debug)]
pub struct NoHelper;

impl Completer for NoHelper {

}

impl Highlighter for NoHelper {

}

impl Hinter for NoHelper {

}

impl Validator for NoHelper {

}

impl Helper for NoHelper {

}

/// A helper put together from one value for each capability. Each call is
/// handed to the value that stands for the capability, and what that value
/// returns is returned. `NoHelper` stands for a capability that is absent.
pub struct Composite<C, L, N, V> {
    pub completer: C,
    pub highlighter: L,
    pub hinter: N,
    pub validator: V,
}

impl<C: Completer, L, N, V> Completer for Composite<C, L, N, V> {
    fn complete(&self, line: &str, pos: usize) -> (found: (usize, Vec<Candidate>))
        ensures
            call_ensures(C::complete, (&self.completer, line, pos), found),
    {
        self.completer.complete(line, pos)
    }
}

impl<C, L: Highlighter, N, V> Highlighter for Composite<C, L, N, V> {
    fn highlight(&self, line: &str, pos: usize) -> (shown: String)
        ensures
            call_ensures(L::highlight, (&self.highlighter, line, pos), shown),
    {
        self.highlighter.highlight(line, pos)
    }

    fn highlight_prompt(&self, prompt: &str) -> (shown: String)
        ensures
            call_ensures(L::highlight_prompt, (&self.highlighter, prompt), shown),
    {
        self.highlighter.highlight_prompt(prompt)
    }

    fn highlight_hint(&self, hint: &str) -> (shown: String)
        ensures
            call_ensures(L::highlight_hint, (&self.highlighter, hint), shown),
    {
        self.highlighter.highlight_hint(hint)
    }

    fn highlight_candidate(&self, candidate: &str) -> (shown: String)
        ensures
            call_ensures(L::highlight_candidate, (&self.highlighter, candidate), shown),
    {
        self.highlighter.highlight_candidate(candidate)
    }
}

impl<C, L, N: Hinter, V> Hinter for Composite<C, L, N, V> {
    fn hint(&self, line: &str, pos: usize) -> (hint: Option<String>)
        ensures
            call_ensures(N::hint, (&self.hinter, line, pos), hint),
    {
        self.hinter.hint(line, pos)
    }
}

impl<C, L, N, V: Validator> Validator for Composite<C, L, N, V> {
    fn validate(&self, input: &str) -> (verdict: ValidationResult)
        ensures
            call_ensures(V::validate, (&self.validator, input), verdict),
    {
        self.validator.validate(input)
    }

    fn validate_while_typing(&self) -> (always: bool)
        ensures
            call_ensures(V::validate_while_typing, (&self.validator,), always),
    {
        self.validator.validate_while_typing()
    }
}

impl<C: Completer, L: Highlighter, N: Hinter, V: Validator> Helper for Composite<C, L, N, V> {

}

/// Which field of a composite type stands for a capability.
#[derive(Clone, Copy, Debug, PartialEq, Eq, Structural)]
pub enum Designation {
    /// No field is marked: the capability is absent.
    Absent,
    /// The field with this number is marked, and no other.
    Field(usize),
    /// Two or more fields are marked, which is not allowed.
    Ambiguous,
}

/// Finds the field that stands for a capability. `marks` says of each field
/// of the type, in order, whether it is marked for the capability.
pub fn designated_field(marks: &Vec<bool>) -> (d: Designation)
    ensures
        d is Absent <==> forall|i: int| 0 <= i < marks@.len() ==> !marks@[i],
        d is Ambiguous <==> exists|i: int, j: int|
            0 <= i < j < marks@.len() && marks@[i] && marks@[j],
        d matches Designation::Field(k) ==> k < marks@.len() && marks@[k as int] && forall|
            j: int,
        |
            0 <= j < marks@.len() && j != k ==> !marks@[j],
{
    let mut found: Option<usize> = None;
    let mut i: usize = 0;
    while i < marks.len()
        invariant
            i <= marks@.len(),
            found is None ==> forall|j: int| 0 <= j < i ==> !marks@[j],
            found matches Some(k) ==> k < i && marks@[k as int] && forall|j: int|
                0 <= j < i && j != k ==> !marks@[j],
        decreases marks@.len() - i,
    {
        if marks[i] {
            match found {
                Some(k) => {
                    assert(0 <= k < i < marks@.len() && marks@[k as int] && marks@[i as int]);
                    return Designation::Ambiguous;
                },
                None => {
                    found = Some(i);
                },
            }
        }
        i += 1;
    }
    match found {
        Some(k) => Designation::Field(k),
        None => Designation::Absent,
    }
}

} // verus!
