//! The external command that assigns an IPv6 address to an interface.

use vstd::prelude::*;
use crate::platform::Platform;

verus! {

/// One word of an argument vector.
#[derive(Debug, PartialEq, Eq)]
pub enum Argument {
    /// A word that is passed as it stands.
    Text(String),
    /// An IPv6 address, given by its eight segments and passed in its
    /// textual form.
    Address([u16; 8]),
}

/// An [`Argument`] in specifications: a text is the sequence of its
/// characters.
pub enum ArgumentView {
    Text(Seq<char>),
    Address([u16; 8]),
}

impl View for Argument {
    type V = ArgumentView;

    open spec fn view(&self) -> ArgumentView {
        match self {
            Argument::Text(text) => ArgumentView::Text(text@),
            Argument::Address(segments) => ArgumentView::Address(*segments),
        }
    }
}

/// An argument vector in specifications.
pub open spec fn words(argv: Seq<Argument>) -> Seq<ArgumentView> {
    argv.map_values(|word: Argument| word@)
}

/// The argument vector, program first, that assigns `address` to the
/// interface named `interface`:
/// `ip -6 addr add <address> dev <interface>` on Linux,
/// `ifconfig <interface> inet6 <address> alias` on macOS.
pub open spec fn ipv6_command(
    platform: Platform,
    interface: Seq<char>,
    address: [u16; 8],
) -> Seq<ArgumentView> {
    match platform {
        Platform::Linux => seq![
            ArgumentView::Text("ip"@),
            ArgumentView::Text("-6"@),
            ArgumentView::Text("addr"@),
            ArgumentView::Text("add"@),
            ArgumentView::Address(address),
            ArgumentView::Text("dev"@),
            ArgumentView::Text(interface),
        ],
        Platform::MacOs => seq![
            ArgumentView::Text("ifconfig"@),
            ArgumentView::Text(interface),
            ArgumentView::Text("inet6"@),
            ArgumentView::Address(address),
            ArgumentView::Text("alias"@),
        ],
    }
}

fn text(word: &str) -> (argument: Argument)
    ensures
        argument@ == ArgumentView::Text(word@),
{
    Argument::Text(word.to_owned())
}

impl Platform {
    /// Builds the argument vector of the command that assigns `address` to
    /// the interface named `interface` on this platform.
    pub fn ipv6_command(self, interface: &str, address: [u16; 8]) -> (argv: Vec<Argument>)
        ensures
            words(argv@) == ipv6_command(self, interface@, address),
    {
        let mut argv: Vec<Argument> = Vec::new();
        match self {
            Platform::Linux => {
                argv.push(text("ip"));
                argv.push(text("-6"));
                argv.push(text("addr"));
                argv.push(text("add"));
                argv.push(Argument::Address(address));
                argv.push(text("dev"));
                argv.push(text(interface));
            },
            Platform::MacOs => {
                argv.push(text("ifconfig"));
                argv.push(text(interface));
                argv.push(text("inet6"));
                argv.push(Argument::Address(address));
                argv.push(text("alias"));
            },
        }
        assert(words(argv@) =~= ipv6_command(self, interface@, address));
        argv
    }
}

} // verus!
