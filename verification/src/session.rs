//! A sitting at the game: the board together with what the player's keys
//! change besides it.

use vstd::prelude::*;
use crate::board::{BoardState, BoardView};
use crate::cell::Player;
use crate::input::{classified, classify, InputEvent, KeyInput};

verus! {

/// The mathematical model of a sitting.
pub struct SessionView {
    pub board: BoardView,
    pub exit: bool,
    pub accent: Player,
}

impl SessionView {
    /// The model's board is valid.
    pub open spec fn valid(self) -> bool {
        self.board.valid()
    }

    /// A fresh sitting: a fresh board, not yet asked to end, the accent in
    /// the colour of the player to move.
    pub open spec fn initial() -> SessionView {
        SessionView { board: BoardView::initial(), exit: false, accent: Player::A }
    }

    /// The sitting after one event. A quit asks for the end. A recolouring
    /// paints the accent in player B's colour. A drop that places a piece
    /// paints it in the colour of the player who moves next. The board
    /// follows its own rules.
    pub open spec fn after(self, event: InputEvent) -> SessionView {
        SessionView {
            board: self.board.after(event),
            exit: self.exit || event == InputEvent::Quit,
            accent: match event {
                InputEvent::RecolorAccent => Player::B,
                InputEvent::Drop => if self.board.can_drop() {
                    self.board.active.other()
                } else {
                    self.accent
                },
                _ => self.accent,
            },
        }
    }

    /// The sitting after a key report: after its event, or unchanged where
    /// the report is none.
    pub open spec fn after_key(self, input: KeyInput) -> SessionView {
        match classified(input) {
            Some(event) => self.after(event),
            None => self,
        }
    }
}

/// A sitting at the game.
#[derive(Clone, Debug, PartialEq, Eq)]
pub struct Session {
    board: BoardState,
    exit: bool,
    accent: Player,
}

impl View for Session {
    type V = SessionView;

    closed spec fn view(&self) -> SessionView {
        SessionView { board: self.board@, exit: self.exit, accent: self.accent }
    }
}

impl Session {
    /// The sitting's invariant, that of its model.
    pub open spec fn wf(&self) -> bool {
        self@.valid()
    }

    /// A fresh sitting.
    pub fn new() -> (session: Session)
        ensures
            session.wf(),
            session@ == SessionView::initial(),
    {
        Session { board: BoardState::new(), exit: false, accent: Player::A }
    }

    /// The board.
    pub fn board(&self) -> (board: &BoardState)
        ensures
            board@ == self@.board,
            board.wf() == self.wf(),
    {
        &self.board
    }

    /// Whether the player asked to end the sitting.
    pub fn should_exit(&self) -> (exit: bool)
        ensures
            exit == self@.exit,
    {
        self.exit
    }

    /// The player in whose colour the accent is painted.
    pub fn accent(&self) -> (accent: Player)
        ensures
            accent == self@.accent,
    {
        self.accent
    }

    /// Moves the floating piece one column to the left, if there is one.
    pub fn move_left(&mut self)
        requires
            old(self).wf(),
        ensures
            final(self).wf(),
            final(self)@ == old(self)@.after(InputEvent::MoveLeft),
    {
        self.board.apply(InputEvent::MoveLeft);
    }

    /// Moves the floating piece one column to the right, if there is one.
    pub fn move_right(&mut self)
        requires
            old(self).wf(),
        ensures
            final(self).wf(),
            final(self)@ == old(self)@.after(InputEvent::MoveRight),
    {
        self.board.apply(InputEvent::MoveRight);
    }

    /// Drops the floating piece. Where it is placed, the accent takes the
    /// colour of the player who moves next.
    pub fn drop(&mut self)
        requires
            old(self).wf(),
        ensures
            final(self).wf(),
            final(self)@ == old(self)@.after(InputEvent::Drop),
    {
        if self.board.drop() {
            self.accent = self.board.color_for_turn();
        }
    }

    /// Asks for the end of the sitting.
    pub fn quit(&mut self)
        ensures
            final(self)@ == old(self)@.after(InputEvent::Quit),
    {
        self.exit = true;
    }

    /// Paints the accent in player B's colour.
    pub fn recolor_accent(&mut self)
        ensures
            final(self)@ == old(self)@.after(InputEvent::RecolorAccent),
    {
        self.accent = Player::B;
    }

    /// Acts on one event.
    pub fn handle_event(&mut self, event: InputEvent)
        requires
            old(self).wf(),
        ensures
            final(self).wf(),
            final(self)@ == old(self)@.after(event),
    {
        match event {
            InputEvent::MoveLeft => self.move_left(),
            InputEvent::MoveRight => self.move_right(),
            InputEvent::Drop => self.drop(),
            InputEvent::Quit => self.quit(),
            InputEvent::RecolorAccent => self.recolor_accent(),
        }
    }

    /// Acts on one key report, ignoring what is no event.
    pub fn handle_key_press(&mut self, input: KeyInput)
        requires
            old(self).wf(),
        ensures
            final(self).wf(),
            final(self)@ == old(self)@.after_key(input),
    {
        match classify(input) {
            Some(event) => self.handle_event(event),
            None => {},
        }
    }
}

} // verus!
