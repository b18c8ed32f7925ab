//! Progress events and their console rendering.  Workers emit one
//! `ConsoleMessage` per pipeline transition; a single consumer turns each
//! into one output line, so lines are never interleaved or torn.

use vstd::prelude::*;
use vstd::string::StringExecFns;

use crate::hash::{hex_of, Sha1Hash};
use crate::text::{dec_of, string_push, to_decimal};

verus! {

/// One progress event: which item, which asset, which pipeline state.
#[derive(Debug)]
pub struct ConsoleMessage {
    pub item_index: usize,
    pub hash: Sha1Hash,
    pub state: State,
}

/// The observable states of the per-item pipeline.
#[derive(Debug)]
pub enum State {
    Checking,
    Cached,
    Processing,
    Done,
    CorruptedMetadata(CorruptedMetadataAction),
}

/// What was done about a size or hash mismatch.
#[derive(Debug)]
pub enum CorruptedMetadataAction {
    ForciblyContinued,
    Skipped { actual_hash: Sha1Hash },
}

/// Leading zeros that pad a decimal rendering to at least four digits.
pub open spec fn zeros_for(n: nat) -> Seq<char> {
    if n < 10 {
        seq!['0', '0', '0']
    } else if n < 100 {
        seq!['0', '0']
    } else if n < 1000 {
        seq!['0']
    } else {
        Seq::empty()
    }
}

/// A counter as at least four decimal digits, zero-padded on the left.
pub open spec fn padded4_of(n: nat) -> Seq<char> {
    zeros_for(n) + dec_of(n)
}

/// The message part of a console line for a pipeline state.
pub open spec fn message_text_of(state: State) -> Seq<char> {
    match state {
        State::Checking => "checking"@,
        State::Cached => "cached; skipping"@,
        State::Processing => "writing"@,
        State::Done => "done"@,
        State::CorruptedMetadata(CorruptedMetadataAction::Skipped { actual_hash }) =>
            "hash mismatch. actual hash is "@ + hex_of(actual_hash@) + "; skipping"@,
        State::CorruptedMetadata(CorruptedMetadataAction::ForciblyContinued) =>
            "actual size or hash did not match, but it will be SAVED!! Please be aware that this feature is NOT SUPPORTED. USE AT YOUR OWN PERIL."@,
    }
}

/// A full console line: `[<index>/<total>] <hash>: <message>`.
pub open spec fn console_line_of(total: nat, m: ConsoleMessage) -> Seq<char> {
    seq!['['] + padded4_of(m.item_index as nat) + seq!['/'] + padded4_of(total) + seq![']', ' ']
        + hex_of(m.hash@) + seq![':', ' '] + message_text_of(m.state)
}

fn pad4(n: usize) -> (r: String)
    ensures
        r@ == padded4_of(n as nat),
{
    let mut s = String::new();
    if n < 10 {
        string_push(&mut s, '0');
    }
    if n < 100 {
        string_push(&mut s, '0');
    }
    if n < 1000 {
        string_push(&mut s, '0');
    }
    let d = to_decimal(n);
    s.append(d.as_str());
    proof {
        assert(s@ =~= padded4_of(n as nat));
    }
    s
}

/// Renders one progress event as its console line, `assets_num` being
/// the total number of items in the work set.
pub fn render_console_message(assets_num: usize, console_message: &ConsoleMessage) -> (r: String)
    ensures
        r@ == console_line_of(assets_num as nat, *console_message),
{
    let mut s = String::new();
    string_push(&mut s, '[');
    let idx = pad4(console_message.item_index);
    s.append(idx.as_str());
    string_push(&mut s, '/');
    let tot = pad4(assets_num);
    s.append(tot.as_str());
    string_push(&mut s, ']');
    string_push(&mut s, ' ');
    let hex = console_message.hash.human_readable();
    s.append(hex.as_str());
    string_push(&mut s, ':');
    string_push(&mut s, ' ');
    match &console_message.state {
        State::Checking => {
            s.append("checking");
        },
        State::Cached => {
            s.append("cached; skipping");
        },
        State::Processing => {
            s.append("writing");
        },
        State::Done => {
            s.append("done");
        },
        State::CorruptedMetadata(CorruptedMetadataAction::Skipped { actual_hash }) => {
            s.append("hash mismatch. actual hash is ");
            let actual = actual_hash.human_readable();
            s.append(actual.as_str());
            s.append("; skipping");
        },
        State::CorruptedMetadata(CorruptedMetadataAction::ForciblyContinued) => {
            s.append(
                "actual size or hash did not match, but it will be SAVED!! Please be aware that this feature is NOT SUPPORTED. USE AT YOUR OWN PERIL.",
            );
        },
    }
    proof {
        assert(s@ =~= console_line_of(assets_num as nat, *console_message));
    }
    s
}

} // verus!
