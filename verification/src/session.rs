//! The dialogue, as a state machine.
//!
//! A session is either running or terminated. While it runs it waits for one
//! line of input at a time: a menu code, a value of the selected solid, or the
//! answer to whether another solid follows. `Session::advance` takes the line
//! and answers with the next state and the actions to carry out. Reading,
//! printing and number parsing are the front end's.

use crate::shape::{
    banner_of, fields_of, prompt_of, shape_from_code, shape_of_code, Field, ShapeKind,
};
use crate::text::{same_text, trim, trimmed};
use vstd::prelude::*;
use vstd::string::*;

verus! {

/// What a running session waits for.
#[derive(Clone, Copy, Debug, PartialEq, Eq, Structural)]
pub enum Awaiting {
    /// A code of the shape menu.
    Shape,
    /// The value at position `index` among those that `kind` asks for.
    Value { kind: ShapeKind, index: usize },
    /// The answer to whether another solid follows.
    Decision,
}

/// The state of the dialogue.
#[derive(Clone, Copy, Debug, PartialEq, Eq, Structural)]
pub enum Session {
    Running(Awaiting),
    Terminated,
}

/// What the front end does between two lines of input.
#[derive(Clone, Copy, Debug, PartialEq, Eq, Structural)]
pub enum Action {
    /// Show the shape menu.
    ShowMenu,
    /// Start a fresh solid of this kind, all values zero, and show its banner.
    Select(ShapeKind),
    /// Keep the number just typed as this value of the solid.
    Store(Field),
    /// Show the inertia matrix of the solid.
    ShowMatrix,
    /// Show where the matrix can be pasted.
    ShowCopyHint,
    /// Ask whether another solid follows.
    AskAnother,
    /// Say that the answer was neither yes nor no.
    ShowInvalid,
}

/// The reading of an answer to a yes-or-no question.
#[derive(Clone, Copy, Debug, PartialEq, Eq, Structural)]
pub enum Answer {
    Yes,
    No,
    Unrecognized,
}

/// The reading of an already trimmed answer. The match is exact and
/// case-sensitive: `y`, `Y`, `Yes`, `yes` mean yes; `n`, `N`, `No`, `no` mean
/// no.
pub open spec fn answer_of_word(word: Seq<char>) -> Answer {
    if word == seq!['y'] || word == seq!['Y'] || word == seq!['Y', 'e', 's'] || word == seq![
        'y',
        'e',
        's',
    ] {
        Answer::Yes
    } else if word == seq!['n'] || word == seq!['N'] || word == seq!['N', 'o'] || word == seq![
        'n',
        'o',
    ] {
        Answer::No
    } else {
        Answer::Unrecognized
    }
}

/// The reading of a typed answer: the line is trimmed, then read as a word.
pub open spec fn answer_of_line(line: Seq<char>) -> Answer {
    answer_of_word(trim(line))
}

/// The state a session starts in, and after each solid returns to.
pub open spec fn initial() -> Session {
    Session::Running(Awaiting::Shape)
}

/// The state and the actions that follow `session` when `line` is typed.
/// `numeric` says whether the line, trimmed, parses as a number; it matters
/// only while a value is awaited.
///
/// - At the menu a code selects its solid and the first value is awaited; any
///   other line shows the menu again.
/// - A number is stored and the next value awaited; after the last one the
///   matrix, the hint and the question follow. A line that is no number
///   changes nothing, so the same value is asked for again.
/// - Yes leads back to the menu and no ends the session. Any other answer is
///   reported as invalid and leads back to the menu as well: the question is
///   not asked a second time.
/// - A terminated session stays terminated.
pub open spec fn step(session: Session, line: Seq<char>, numeric: bool) -> (Session, Seq<Action>) {
    match session {
        Session::Terminated => (Session::Terminated, Seq::empty()),
        Session::Running(Awaiting::Shape) => match shape_of_code(trim(line)) {
            Some(kind) => (
                Session::Running(Awaiting::Value { kind, index: 0 }),
                seq![Action::Select(kind)],
            ),
            None => (initial(), seq![Action::ShowMenu]),
        },
        Session::Running(Awaiting::Value { kind, index }) => {
            if !numeric {
                (session, Seq::empty())
            } else if index + 1 < fields_of(kind).len() {
                (
                    Session::Running(Awaiting::Value { kind, index: (index + 1) as usize }),
                    seq![Action::Store(fields_of(kind)[index as int])],
                )
            } else {
                (
                    Session::Running(Awaiting::Decision),
                    seq![
                        Action::Store(fields_of(kind)[index as int]),
                        Action::ShowMatrix,
                        Action::ShowCopyHint,
                        Action::AskAnother,
                    ],
                )
            }
        },
        Session::Running(Awaiting::Decision) => match answer_of_word(trim(line)) {
            Answer::Yes => (initial(), seq![Action::ShowMenu]),
            Answer::No => (Session::Terminated, Seq::empty()),
            Answer::Unrecognized => (initial(), seq![Action::ShowInvalid, Action::ShowMenu]),
        },
    }
}

/// The line shown just before input is read in state `session`: the prompt of
/// the awaited value, and an empty line otherwise.
pub open spec fn prompt_in(session: Session) -> Seq<char> {
    match session {
        Session::Running(Awaiting::Value { kind, index }) => if index < fields_of(kind).len() {
            prompt_of(fields_of(kind)[index as int])
        } else {
            Seq::empty()
        },
        _ => Seq::empty(),
    }
}

/// The fixed text that an action shows. Storing a value shows nothing, and
/// the matrix depends on the solid.
pub open spec fn message_of(action: Action) -> Option<Seq<char>> {
    match action {
        Action::ShowMenu => Some(
            "Please select one of the following shapes:\n\nSolid Cuboid: 1\nSolid Sphere: 2\nSolid Cylinder: 3"@,
        ),
        Action::Select(kind) => Some(banner_of(kind)),
        Action::Store(_) => None,
        Action::ShowMatrix => None,
        Action::ShowCopyHint => Some(
            "Feel free to copy/paste this data between the <inertia> tags in your URDF file!"@,
        ),
        Action::AskAnother => Some("Process another? (Y/N)"@),
        Action::ShowInvalid => Some("Invalid input! Please enter yes or no(y/n)"@),
    }
}

/// Reads an already trimmed answer.
pub fn answer_from_word(word: &str) -> (r: Answer)
    ensures
        r == answer_of_word(word@),
{
    proof {
        reveal_strlit("y");
        reveal_strlit("Y");
        reveal_strlit("Yes");
        reveal_strlit("yes");
        reveal_strlit("n");
        reveal_strlit("N");
        reveal_strlit("No");
        reveal_strlit("no");
        assert("y"@ =~= seq!['y']);
        assert("Y"@ =~= seq!['Y']);
        assert("Yes"@ =~= seq!['Y', 'e', 's']);
        assert("yes"@ =~= seq!['y', 'e', 's']);
        assert("n"@ =~= seq!['n']);
        assert("N"@ =~= seq!['N']);
        assert("No"@ =~= seq!['N', 'o']);
        assert("no"@ =~= seq!['n', 'o']);
    }
    if same_text(word, "y") || same_text(word, "Y") || same_text(word, "Yes") || same_text(
        word,
        "yes",
    ) {
        Answer::Yes
    } else if same_text(word, "n") || same_text(word, "N") || same_text(word, "No") || same_text(
        word,
        "no",
    ) {
        Answer::No
    } else {
        Answer::Unrecognized
    }
}

/// Reads the line typed in answer to whether another solid follows. White
/// space round the word is ignored.
pub fn read_answer(line: &str) -> (r: Answer)
    ensures
        r == answer_of_line(line@),
{
    answer_from_word(trimmed(line))
}

impl Action {
    /// The fixed text that this action shows, if it shows one.
    pub fn message(&self) -> (r: Option<&'static str>)
        ensures
            match r {
                Some(text) => message_of(*self) == Some(text@),
                None => message_of(*self) is None,
            },
    {
        match self {
            Action::ShowMenu => Some(
                "Please select one of the following shapes:\n\nSolid Cuboid: 1\nSolid Sphere: 2\nSolid Cylinder: 3",
            ),
            Action::Select(kind) => Some(kind.banner()),
            Action::Store(_) => None,
            Action::ShowMatrix => None,
            Action::ShowCopyHint => Some(
                "Feel free to copy/paste this data between the <inertia> tags in your URDF file!",
            ),
            Action::AskAnother => Some("Process another? (Y/N)"),
            Action::ShowInvalid => Some("Invalid input! Please enter yes or no(y/n)"),
        }
    }
}

impl Session {
    /// A session is well formed when the value it waits for is one that the
    /// selected solid has.
    pub open spec fn wf(self) -> bool {
        match self {
            Session::Running(Awaiting::Value { kind, index }) => index < fields_of(kind).len(),
            _ => true,
        }
    }

    /// Whether the session still waits for input.
    pub open spec fn running(self) -> bool {
        self != Session::Terminated
    }

    /// Opens a session: it waits at the shape menu, which is to be shown.
    pub fn start() -> (r: (Session, Vec<Action>))
        ensures
            r.0 == initial(),
            r.0.wf(),
            r.1@ == seq![Action::ShowMenu],
    {
        (Session::Running(Awaiting::Shape), vec![Action::ShowMenu])
    }

    /// Tells whether the session is well formed.
    pub fn is_well_formed(&self) -> (r: bool)
        ensures
            r == self.wf(),
    {
        match self {
            Session::Running(Awaiting::Value { kind, index }) => *index < kind.field_count(),
            _ => true,
        }
    }

    /// Tells whether the session still waits for input.
    pub fn is_running(&self) -> (r: bool)
        ensures
            r == self.running(),
    {
        match self {
            Session::Terminated => false,
            _ => true,
        }
    }

    /// The line to show just before the next input is read.
    pub fn prompt(&self) -> (r: &'static str)
        ensures
            r@ == prompt_in(*self),
    {
        proof {
            reveal_strlit("");
            assert(""@ =~= Seq::<char>::empty());
        }
        match self {
            Session::Running(Awaiting::Value { kind, index }) => match kind.field_at(*index) {
                Some(field) => field.prompt(),
                None => "",
            },
            _ => "",
        }
    }

    /// Takes one line of input and answers with the next state and the
    /// actions to carry out, in order. `numeric` says whether the line,
    /// trimmed, parses as a number.
    pub fn advance(&self, line: &str, numeric: bool) -> (r: (Session, Vec<Action>))
        requires
            self.wf(),
        ensures
            r.0 == step(*self, line@, numeric).0,
            r.1@ == step(*self, line@, numeric).1,
            r.0.wf(),
    {
        match self {
            Session::Terminated => (Session::Terminated, Vec::new()),
            Session::Running(Awaiting::Shape) => match shape_from_code(trimmed(line)) {
                Some(kind) => (
                    Session::Running(Awaiting::Value { kind, index: 0 }),
                    vec![Action::Select(kind)],
                ),
                None => (Session::Running(Awaiting::Shape), vec![Action::ShowMenu]),
            },
            Session::Running(Awaiting::Value { kind, index }) => {
                if !numeric {
                    (*self, Vec::new())
                } else {
                    let field = match kind.field_at(*index) {
                        Some(field) => field,
                        None => Field::Mass,
                    };
                    if *index + 1 < kind.field_count() {
                        (
                            Session::Running(Awaiting::Value { kind: *kind, index: *index + 1 }),
                            vec![Action::Store(field)],
                        )
                    } else {
                        (
                            Session::Running(Awaiting::Decision),
                            vec![
                                Action::Store(field),
                                Action::ShowMatrix,
                                Action::ShowCopyHint,
                                Action::AskAnother,
                            ],
                        )
                    }
                }
            },
            Session::Running(Awaiting::Decision) => match answer_from_word(trimmed(line)) {
                Answer::Yes => (Session::Running(Awaiting::Shape), vec![Action::ShowMenu]),
                Answer::No => (Session::Terminated, Vec::new()),
                Answer::Unrecognized => (
                    Session::Running(Awaiting::Shape),
                    vec![Action::ShowInvalid, Action::ShowMenu],
                ),
            },
        }
    }
}

/// A line at the shape menu that is none of the three codes leaves the
/// session at the menu and shows the menu again: no solid is selected and no
/// value is asked for.
pub proof fn lemma_unknown_code_returns_to_menu(line: Seq<char>, numeric: bool)
    requires
        shape_of_code(trim(line)) is None,
    ensures
        step(initial(), line, numeric) == (initial(), seq![Action::ShowMenu]),
{
}

/// A line that is no number, typed where a value is awaited, changes nothing:
/// the session waits for the same value, shows the same prompt, stores
/// nothing, and does not end.
pub proof fn lemma_rejected_value_is_asked_again(kind: ShapeKind, index: usize, line: Seq<char>)
    requires
        index < fields_of(kind).len(),
    ensures
        ({
            let waiting = Session::Running(Awaiting::Value { kind, index });
            let next = step(waiting, line, false);
            &&& next.0 == waiting
            &&& next.1 == Seq::<Action>::empty()
            &&& prompt_in(next.0) == prompt_of(fields_of(kind)[index as int])
        }),
{
}

/// Every step leads from a well-formed session to a well-formed session.
pub proof fn lemma_step_keeps_well_formed(session: Session, line: Seq<char>, numeric: bool)
    requires
        session.wf(),
    ensures
        step(session, line, numeric).0.wf(),
{
}

/// A running session ends in one way only: by the answer no to whether
/// another solid follows. A terminated one never runs again.
pub proof fn lemma_only_no_terminates(session: Session, line: Seq<char>, numeric: bool)
    ensures
        session.running() && !step(session, line, numeric).0.running() ==> session
            == Session::Running(Awaiting::Decision) && answer_of_line(line) == Answer::No,
        !session.running() ==> !step(session, line, numeric).0.running(),
{
}

/// An answer that is neither yes nor no is reported and leads back to the
/// shape menu; the session goes on, and the question is not asked again.
pub proof fn lemma_unknown_answer_returns_to_menu(line: Seq<char>, numeric: bool)
    requires
        answer_of_line(line) == Answer::Unrecognized,
    ensures
        step(Session::Running(Awaiting::Decision), line, numeric) == (
            initial(),
            seq![Action::ShowInvalid, Action::ShowMenu],
        ),
{
}

/// The numbers typed for a solid are stored in asking order, one per step:
/// the step taken on a number while the value at `index` is awaited stores
/// that very value first.
pub proof fn lemma_number_is_stored(kind: ShapeKind, index: usize, line: Seq<char>)
    requires
        index < fields_of(kind).len(),
    ensures
        ({
            let next = step(Session::Running(Awaiting::Value { kind, index }), line, true);
            &&& next.1.len() > 0
            &&& next.1[0] == Action::Store(fields_of(kind)[index as int])
            &&& index + 1 < fields_of(kind).len() ==> next.0 == Session::Running(
                Awaiting::Value { kind, index: (index + 1) as usize },
            )
            &&& index + 1 == fields_of(kind).len() ==> next.0 == Session::Running(
                Awaiting::Decision,
            )
        }),
{
}

} // verus!
