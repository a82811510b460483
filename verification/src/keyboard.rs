//! The two keyboards: the main menu and the confirm-or-cancel prompt.

use vstd::prelude::*;
use vstd::string::StringExecFns;
use crate::outcome::{
    ActionToken, Affordance, LABEL_CONFIRM_NO, LABEL_CONFIRM_YES, LABEL_SHUTDOWN, LABEL_STATUS,
    LABEL_WOL,
};

verus! {

/// A button: what it shows and which token a press sends.
#[derive(Debug)]
pub struct Button {
    pub label: String,
    pub token: ActionToken,
}

/// Rows of buttons, top to bottom, each row left to right.
#[derive(Debug)]
pub struct Keyboard {
    pub rows: Vec<Vec<Button>>,
}

impl View for Keyboard {
    type V = Seq<Seq<(Seq<char>, ActionToken)>>;

    open spec fn view(&self) -> Seq<Seq<(Seq<char>, ActionToken)>> {
        Seq::new(
            self.rows@.len(),
            |i: int| Seq::new(self.rows@[i]@.len(), |j: int| (self.rows@[i]@[j].label@, self.rows@[i]@[j].token)),
        )
    }
}

/// The main menu: wake and shut down side by side, status below.
pub open spec fn main_keyboard_view() -> Seq<Seq<(Seq<char>, ActionToken)>> {
    seq![
        seq![(LABEL_WOL@, ActionToken::Wol), (LABEL_SHUTDOWN@, ActionToken::ShutdownConfirm)],
        seq![(LABEL_STATUS@, ActionToken::Status)],
    ]
}

/// The prompt: confirm and cancel side by side.
pub open spec fn confirm_keyboard_view() -> Seq<Seq<(Seq<char>, ActionToken)>> {
    seq![seq![(LABEL_CONFIRM_YES@, ActionToken::ShutdownYes), (LABEL_CONFIRM_NO@, ActionToken::Cancel)]]
}

fn button(label: &str, token: ActionToken) -> (r: Button)
    ensures
        r.label@ == label@,
        r.token == token,
{
    Button { label: String::from_str(label), token }
}

/// Builds the main menu.
pub fn main_keyboard() -> (r: Keyboard)
    ensures
        r@ == main_keyboard_view(),
{
    let mut top: Vec<Button> = Vec::new();
    top.push(button(LABEL_WOL, ActionToken::Wol));
    top.push(button(LABEL_SHUTDOWN, ActionToken::ShutdownConfirm));
    let mut bottom: Vec<Button> = Vec::new();
    bottom.push(button(LABEL_STATUS, ActionToken::Status));
    let mut rows: Vec<Vec<Button>> = Vec::new();
    rows.push(top);
    rows.push(bottom);
    let r = Keyboard { rows };
    proof {
        assert(r@.len() == 2);
        assert(r@[0] =~= main_keyboard_view()[0]);
        assert(r@[1] =~= main_keyboard_view()[1]);
        assert(r@ =~= main_keyboard_view());
    }
    r
}

/// Builds the confirm-or-cancel prompt.
pub fn confirm_keyboard() -> (r: Keyboard)
    ensures
        r@ == confirm_keyboard_view(),
{
    let mut row: Vec<Button> = Vec::new();
    row.push(button(LABEL_CONFIRM_YES, ActionToken::ShutdownYes));
    row.push(button(LABEL_CONFIRM_NO, ActionToken::Cancel));
    let mut rows: Vec<Vec<Button>> = Vec::new();
    rows.push(row);
    let r = Keyboard { rows };
    proof {
        assert(r@.len() == 1);
        assert(r@[0] =~= confirm_keyboard_view()[0]);
        assert(r@ =~= confirm_keyboard_view());
    }
    r
}

/// The keyboard that an affordance stands for; none where the message keeps
/// the one it has.
pub fn keyboard_for(affordance: Affordance) -> (r: Option<Keyboard>)
    ensures
        match affordance {
            Affordance::Unchanged => r is None,
            Affordance::MainMenu => r is Some && r->0@ == main_keyboard_view(),
            Affordance::Confirm => r is Some && r->0@ == confirm_keyboard_view(),
        },
{
    match affordance {
        Affordance::Unchanged => None,
        Affordance::MainMenu => Some(main_keyboard()),
        Affordance::Confirm => Some(confirm_keyboard()),
    }
}

/// The main menu has two rows: wake and shut down in the first, in that
/// order, and status alone in the second.
pub proof fn lemma_main_keyboard_shape()
    ensures
        main_keyboard_view().len() == 2,
        main_keyboard_view()[0].len() == 2,
        main_keyboard_view()[0][0].1 == ActionToken::Wol,
        main_keyboard_view()[0][1].1 == ActionToken::ShutdownConfirm,
        main_keyboard_view()[1].len() == 1,
        main_keyboard_view()[1][0].1 == ActionToken::Status,
{
}

} // verus!
