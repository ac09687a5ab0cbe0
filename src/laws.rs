//! Properties of the encoding that relate requests to their content.

use vstd::prelude::*;
use crate::command::{Command, HistoryAccessType, content_members, content_text, detail_level_value};
use crate::json::{Field, member, member_from, pairs_view};

verus! {

/// Reading the content of an execute, inspect, complete, is-complete or
/// shutdown request back by its keys gives the request's own fields.
pub proof fn lemma_content_round_trip(c: &Command)
    requires
        !(c is KernelInfo) && !(c is History),
    ensures
        match c {
            Command::Execute { code, silent, store_history, user_expressions, allow_stdin, stop_on_error } => {
                let fs = content_members(c);
                &&& member(fs, "code"@) == Some(Field::Text(code@))
                &&& member(fs, "silent"@) == Some(Field::Bool(*silent))
                &&& member(fs, "store_history"@) == Some(Field::Bool(*store_history))
                &&& member(fs, "user_expressions"@) == Some(Field::TextMap(pairs_view(user_expressions@)))
                &&& member(fs, "allow_stdin"@) == Some(Field::Bool(*allow_stdin))
                &&& member(fs, "stop_on_error"@) == Some(Field::Bool(*stop_on_error))
            },
            Command::Inspect { code, cursor_pos, detail_level } => {
                let fs = content_members(c);
                &&& member(fs, "code"@) == Some(Field::Text(code@))
                &&& member(fs, "cursor_pos"@) == Some(Field::Int(*cursor_pos as int))
                &&& member(fs, "detail_level"@) == Some(Field::Int(detail_level_value(*detail_level)))
            },
            Command::Complete { code, cursor_pos } => {
                let fs = content_members(c);
                &&& member(fs, "code"@) == Some(Field::Text(code@))
                &&& member(fs, "cursor_pos"@) == Some(Field::Int(*cursor_pos as int))
            },
            Command::IsComplete { code } => member(content_members(c), "code"@) == Some(Field::Text(code@)),
            Command::Shutdown { restart } => member(content_members(c), "restart"@) == Some(Field::Bool(*restart)),
            _ => true,
        },
{
    reveal_strlit("code");
    assert("code"@.len() == 4);
    reveal_strlit("silent");
    assert("silent"@.len() == 6);
    reveal_strlit("store_history");
    assert("store_history"@.len() == 13);
    reveal_strlit("user_expressions");
    assert("user_expressions"@.len() == 16);
    reveal_strlit("allow_stdin");
    assert("allow_stdin"@.len() == 11);
    reveal_strlit("stop_on_error");
    assert("stop_on_error"@.len() == 13);
    reveal_strlit("cursor_pos");
    assert("cursor_pos"@.len() == 10);
    reveal_strlit("detail_level");
    assert("detail_level"@.len() == 12);
    reveal_strlit("restart");
    assert("restart"@.len() == 7);
    reveal_with_fuel(member_from, 7);
    // the two keys of equal length differ at their fourth character
    assert("store_history"@[3] != "stop_on_error"@[3]);
}

/// A history request's content always says "tail" for the access type and
/// holds all five selector keys: those of the given access type carry its
/// values, the others are null.
pub proof fn lemma_history_selectors(output: bool, raw: bool, h: HistoryAccessType, unique: bool)
    ensures
        ({
            let fs = content_members(&Command::History { output, raw, hist_access_type: h, unique });
            &&& member(fs, "hist_access_type"@) == Some(Field::Text("tail"@))
            &&& member(fs, "output"@) == Some(Field::Bool(output))
            &&& member(fs, "raw"@) == Some(Field::Bool(raw))
            &&& member(fs, "unique"@) == Some(Field::Bool(unique))
            &&& match h {
                HistoryAccessType::Tail { n } => {
                    &&& member(fs, "n"@) == Some(Field::Int(n as int))
                    &&& member(fs, "session"@) == Some(Field::Null)
                    &&& member(fs, "start"@) == Some(Field::Null)
                    &&& member(fs, "stop"@) == Some(Field::Null)
                    &&& member(fs, "pattern"@) == Some(Field::Null)
                },
                HistoryAccessType::Range { session, start, stop } => {
                    &&& member(fs, "n"@) == Some(Field::Null)
                    &&& member(fs, "session"@) == Some(Field::Int(session as int))
                    &&& member(fs, "start"@) == Some(Field::Int(start as int))
                    &&& member(fs, "stop"@) == Some(Field::Int(stop as int))
                    &&& member(fs, "pattern"@) == Some(Field::Null)
                },
                HistoryAccessType::Search { pattern } => {
                    &&& member(fs, "n"@) == Some(Field::Null)
                    &&& member(fs, "session"@) == Some(Field::Null)
                    &&& member(fs, "start"@) == Some(Field::Null)
                    &&& member(fs, "stop"@) == Some(Field::Null)
                    &&& member(fs, "pattern"@) == Some(Field::Text(pattern@))
                },
            }
        }),
{
    reveal_strlit("hist_access_type");
    assert("hist_access_type"@.len() == 16);
    reveal_strlit("n");
    assert("n"@.len() == 1);
    reveal_strlit("output");
    assert("output"@.len() == 6);
    reveal_strlit("pattern");
    assert("pattern"@.len() == 7);
    reveal_strlit("raw");
    assert("raw"@.len() == 3);
    reveal_strlit("session");
    assert("session"@.len() == 7);
    reveal_strlit("start");
    assert("start"@.len() == 5);
    reveal_strlit("stop");
    assert("stop"@.len() == 4);
    reveal_strlit("unique");
    assert("unique"@.len() == 6);
    reveal_with_fuel(member_from, 10);
    // keys of equal length differ at their first character
    assert("output"@[0] != "unique"@[0]);
    assert("pattern"@[0] != "session"@[0]);
}

/// A kernel-info request's content is the empty object `{}`.
pub proof fn lemma_kernel_info_content_empty()
    ensures
        content_text(&Command::KernelInfo) == "{}"@,
{
    reveal_strlit("{}");
    assert(content_text(&Command::KernelInfo) =~= "{}"@);
}

} // verus!
