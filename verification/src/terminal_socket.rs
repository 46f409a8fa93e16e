//! The connection to a client of a terminal: it holds the terminal that the messages of the
//! client go to.

use crate::json::Json;
use crate::terminal::{
    handle_terminal_message, invalid_connection_data, SocketAction, TerminalConnectData,
    TerminalMessage,
};
use vstd::prelude::*;

verus! {

/// A connection to a client, with the terminal that was started last.
#[derive(Debug)]
pub struct TerminalSocket<T> {
    terminal: Option<T>,
}

impl<T> View for TerminalSocket<T> {
    type V = Option<T>;

    closed spec fn view(&self) -> Option<T> {
        self.terminal
    }
}

impl<T> TerminalSocket<T> {
    /// A connection without a terminal.
    pub fn new() -> (r: TerminalSocket<T>)
        ensures
            r@ == None::<T>,
    {
        TerminalSocket { terminal: None }
    }

    /// What is done about a message.
    pub fn handle(&self, message: Option<TerminalMessage>) -> (r: SocketAction)
        ensures
            r@ == crate::terminal::action_for(
                match message {
                    Some(read) => Some(read@),
                    None => None,
                },
                self@ is Some,
            ),
    {
        handle_terminal_message(message, self.terminal.is_some())
    }

    /// Connects to the host that the data describes: a terminal is started for it, and takes
    /// the place of the one before. Data that describes no host is answered with an event, and
    /// the terminal stays.
    pub fn connect<F: FnOnce(TerminalConnectData) -> T>(
        &mut self,
        data: Option<TerminalConnectData>,
        start: F,
    ) -> (r: Option<Json>)
        requires
            data matches Some(described) ==> call_requires(start, (described,)),
        ensures
            match data {
                Some(described) => r is None && (final(self)@ matches Some(terminal)
                    && call_ensures(start, (described,), terminal)),
                None => (r matches Some(event) && event@ == crate::terminal::invalid_data_body())
                    && final(self)@ == old(self)@,
            },
    {
        match data {
            Some(described) => {
                let terminal = start(described);
                self.terminal = Some(terminal);
                None
            },
            None => Some(invalid_connection_data()),
        }
    }

    /// The terminal.
    pub fn terminal(&self) -> (r: Option<&T>)
        ensures
            r == (match self@ {
                Some(terminal) => Some(&terminal),
                None => None,
            }),
    {
        match &self.terminal {
            Some(terminal) => Some(terminal),
            None => None,
        }
    }

    /// The terminal, to take its events from.
    pub fn terminal_mut(&mut self) -> (r: Option<&mut T>)
        ensures
            match r {
                Some(terminal) => old(self)@ == Some(*terminal) && final(self)@ == Some(
                    *final(terminal),
                ),
                None => old(self)@ is None && final(self)@ is None,
            },
    {
        match &mut self.terminal {
            Some(terminal) => Some(terminal),
            None => None,
        }
    }
}

} // verus!
