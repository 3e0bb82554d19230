//! The command-line frontend's pure parts: reading arguments into protocol
//! commands, and rendering responses for people, scripts and Waybar.

use crate::protocol::{
    command_mutates, Command, DataValue, ProtocolError, ReminderDelivery, Request, Response,
    SessionKind, Snapshot, TaskTitleRule, PROTOCOL_VERSION,
};
use crate::tray::{minutes_seconds, minutes_seconds_string};
use crate::text::{
    concat, concat3, debug_text, debug_string, decimal, decimal_padded, decimal_padded_string,
    decimal_string, parse_u64, parse_u64_spec, str_equal, chars_of,
};
use vstd::prelude::*;

verus! {

/// The words of a command line: its arguments without `--json`.
pub open spec fn cli_words(args: Seq<Seq<char>>) -> Seq<Seq<char>> {
    args.filter(|a: Seq<char>| a != "--json"@)
}

/// The usage message shown for a command line that has no known form.
pub open spec fn usage_text() -> Seq<char> {
    "usage: pomotui [--json] status|start focus [--task ID|--title TITLE]|start <short-break|long-break>|pause|resume|stop|skip|task ...|history|summary|waybar"@
}

/// The form `status`.
pub open spec fn form_0(words: Seq<Seq<char>>) -> bool {
    words.len() == 1
        && words[0] == "status"@
}

/// The form `waybar`.
pub open spec fn form_1(words: Seq<Seq<char>>) -> bool {
    words.len() == 1
        && words[0] == "waybar"@
}

/// The form `start focus`.
pub open spec fn form_2(words: Seq<Seq<char>>) -> bool {
    words.len() == 2
        && words[0] == "start"@
        && words[1] == "focus"@
}

/// The form `start focus --task ID`.
pub open spec fn form_3(words: Seq<Seq<char>>) -> bool {
    words.len() == 4
        && words[0] == "start"@
        && words[1] == "focus"@
        && words[2] == "--task"@
}

/// The form `start focus --title TITLE`.
pub open spec fn form_4(words: Seq<Seq<char>>) -> bool {
    words.len() == 4
        && words[0] == "start"@
        && words[1] == "focus"@
        && words[2] == "--title"@
}

/// The form `start short-break`.
pub open spec fn form_5(words: Seq<Seq<char>>) -> bool {
    words.len() == 2
        && words[0] == "start"@
        && words[1] == "short-break"@
}

/// The form `start long-break`.
pub open spec fn form_6(words: Seq<Seq<char>>) -> bool {
    words.len() == 2
        && words[0] == "start"@
        && words[1] == "long-break"@
}

/// The form `pause`.
pub open spec fn form_7(words: Seq<Seq<char>>) -> bool {
    words.len() == 1
        && words[0] == "pause"@
}

/// The form `resume`.
pub open spec fn form_8(words: Seq<Seq<char>>) -> bool {
    words.len() == 1
        && words[0] == "resume"@
}

/// The form `stop`.
pub open spec fn form_9(words: Seq<Seq<char>>) -> bool {
    words.len() == 1
        && words[0] == "stop"@
}

/// The form `stop --no-review`.
pub open spec fn form_10(words: Seq<Seq<char>>) -> bool {
    words.len() == 2
        && words[0] == "stop"@
        && words[1] == "--no-review"@
}

/// The form `stop --review`.
pub open spec fn form_11(words: Seq<Seq<char>>) -> bool {
    words.len() == 2
        && words[0] == "stop"@
        && words[1] == "--review"@
}

/// The form `skip`.
pub open spec fn form_12(words: Seq<Seq<char>>) -> bool {
    words.len() == 1
        && words[0] == "skip"@
}

/// The form `task list`.
pub open spec fn form_13(words: Seq<Seq<char>>) -> bool {
    words.len() == 2
        && words[0] == "task"@
        && words[1] == "list"@
}

/// The form `task create TITLE`.
pub open spec fn form_14(words: Seq<Seq<char>>) -> bool {
    words.len() == 3
        && words[0] == "task"@
        && words[1] == "create"@
}

/// The form `task rename ID TITLE`.
pub open spec fn form_15(words: Seq<Seq<char>>) -> bool {
    words.len() == 4
        && words[0] == "task"@
        && words[1] == "rename"@
}

/// The form `task complete ID`.
pub open spec fn form_16(words: Seq<Seq<char>>) -> bool {
    words.len() == 3
        && words[0] == "task"@
        && words[1] == "complete"@
}

/// The form `task reopen ID`.
pub open spec fn form_17(words: Seq<Seq<char>>) -> bool {
    words.len() == 3
        && words[0] == "task"@
        && words[1] == "reopen"@
}

/// The form `task delete ID`.
pub open spec fn form_18(words: Seq<Seq<char>>) -> bool {
    words.len() == 3
        && words[0] == "task"@
        && words[1] == "delete"@
}

/// The form `history`.
pub open spec fn form_19(words: Seq<Seq<char>>) -> bool {
    words.len() == 1
        && words[0] == "history"@
}

/// The form `summary`.
pub open spec fn form_20(words: Seq<Seq<char>>) -> bool {
    words.len() == 1
        && words[0] == "summary"@
}

/// The form `review success`.
pub open spec fn form_21(words: Seq<Seq<char>>) -> bool {
    words.len() == 2
        && words[0] == "review"@
        && words[1] == "success"@
}

/// The form `review success --reflection REFLECTION`.
pub open spec fn form_22(words: Seq<Seq<char>>) -> bool {
    words.len() == 4
        && words[0] == "review"@
        && words[1] == "success"@
        && words[2] == "--reflection"@
}

/// The form `review success --task ID`.
pub open spec fn form_23(words: Seq<Seq<char>>) -> bool {
    words.len() == 4
        && words[0] == "review"@
        && words[1] == "success"@
        && words[2] == "--task"@
}

/// The form `review success --void TITLE`.
pub open spec fn form_24(words: Seq<Seq<char>>) -> bool {
    words.len() == 4
        && words[0] == "review"@
        && words[1] == "success"@
        && words[2] == "--void"@
}

/// The form `review success --void TITLE --reflection REFLECTION`.
pub open spec fn form_25(words: Seq<Seq<char>>) -> bool {
    words.len() == 6
        && words[0] == "review"@
        && words[1] == "success"@
        && words[2] == "--void"@
        && words[4] == "--reflection"@
}

/// The form `chain`.
pub open spec fn form_26(words: Seq<Seq<char>>) -> bool {
    words.len() == 1
        && words[0] == "chain"@
}

/// The form `chain archive`.
pub open spec fn form_27(words: Seq<Seq<char>>) -> bool {
    words.len() == 2
        && words[0] == "chain"@
        && words[1] == "archive"@
}

/// The form `chain edit ID --reflection REFLECTION`.
pub open spec fn form_28(words: Seq<Seq<char>>) -> bool {
    words.len() == 5
        && words[0] == "chain"@
        && words[1] == "edit"@
        && words[3] == "--reflection"@
}

/// The form `chain edit ID --title TITLE`.
pub open spec fn form_29(words: Seq<Seq<char>>) -> bool {
    words.len() == 5
        && words[0] == "chain"@
        && words[1] == "edit"@
        && words[3] == "--title"@
}

/// The form `chain edit ID --title TITLE --reflection REFLECTION`.
pub open spec fn form_30(words: Seq<Seq<char>>) -> bool {
    words.len() == 7
        && words[0] == "chain"@
        && words[1] == "edit"@
        && words[3] == "--title"@
        && words[5] == "--reflection"@
}

/// The form `review failure REFLECTION`.
pub open spec fn form_31(words: Seq<Seq<char>>) -> bool {
    words.len() == 3
        && words[0] == "review"@
        && words[1] == "failure"@
}

/// The form `review failure --task ID REFLECTION`.
pub open spec fn form_32(words: Seq<Seq<char>>) -> bool {
    words.len() == 5
        && words[0] == "review"@
        && words[1] == "failure"@
        && words[2] == "--task"@
}

/// The form `review failure --void TITLE REFLECTION`.
pub open spec fn form_33(words: Seq<Seq<char>>) -> bool {
    words.len() == 5
        && words[0] == "review"@
        && words[1] == "failure"@
        && words[2] == "--void"@
}

/// The form `reward list`.
pub open spec fn form_34(words: Seq<Seq<char>>) -> bool {
    words.len() == 2
        && words[0] == "reward"@
        && words[1] == "list"@
}

/// The form `reward create THRESHOLD NAME`.
pub open spec fn form_35(words: Seq<Seq<char>>) -> bool {
    words.len() == 4
        && words[0] == "reward"@
        && words[1] == "create"@
}

/// The form `reward create THRESHOLD NAME --budget BUDGET`.
pub open spec fn form_36(words: Seq<Seq<char>>) -> bool {
    words.len() == 6
        && words[0] == "reward"@
        && words[1] == "create"@
        && words[4] == "--budget"@
}

/// The form `reward update ID THRESHOLD NAME`.
pub open spec fn form_37(words: Seq<Seq<char>>) -> bool {
    words.len() == 5
        && words[0] == "reward"@
        && words[1] == "update"@
}

/// The form `reward delete ID`.
pub open spec fn form_38(words: Seq<Seq<char>>) -> bool {
    words.len() == 3
        && words[0] == "reward"@
        && words[1] == "delete"@
}

/// The form `reward claim ID`.
pub open spec fn form_39(words: Seq<Seq<char>>) -> bool {
    words.len() == 3
        && words[0] == "reward"@
        && words[1] == "claim"@
}

/// Whether the words have one of the known forms.
pub open spec fn known_form(words: Seq<Seq<char>>) -> bool {
    form_0(words) || form_1(words) || form_2(words) || form_3(words) || form_4(words) || form_5(words) || form_6(words) || form_7(words) || form_8(words) || form_9(words) || form_10(words) || form_11(words) || form_12(words) || form_13(words) || form_14(words) || form_15(words) || form_16(words) || form_17(words) || form_18(words) || form_19(words) || form_20(words) || form_21(words) || form_22(words) || form_23(words) || form_24(words) || form_25(words) || form_26(words) || form_27(words) || form_28(words) || form_29(words) || form_30(words) || form_31(words) || form_32(words) || form_33(words) || form_34(words) || form_35(words) || form_36(words) || form_37(words) || form_38(words) || form_39(words)
}

/// Reads a numeric identity argument.
fn parse_id(value: &str) -> (id: Result<u64, String>)
    ensures
        match parse_u64_spec(value@) {
            Some(n) => id == Ok::<u64, String>(n),
            None => id matches Err(m) && m@ == "invalid Task ID: "@ + value@,
        },
{
    let chars = chars_of(value);
    match parse_u64(chars.as_slice()) {
        Some(n) => Ok(n),
        None => Err(concat("invalid Task ID: ", value)),
    }
}

/// Reads a command line: the command, whether `--json` was given, and
/// whether the words are exactly `waybar`.
#[verifier::rlimit(80)]
pub fn parse(args: &[String]) -> (result: Result<(Command, bool, bool), String>)
    ensures
        ({
            let all = args@.map_values(|a: String| a@);
            let words = cli_words(all);
            let json = all.contains("--json"@);
            let waybar = words == seq!["waybar"@];
        &&& form_0(words) ==> ((result matches Ok((Command::Status, j, w)) && j == json && w == waybar))
        &&& form_1(words) ==> ((result matches Ok((Command::Status, j, w)) && j == json && w == waybar))
        &&& form_2(words) ==> ((result matches Ok((Command::Start { kind: SessionKind::Focus, task_id: None }, j, w)) && j == json && w == waybar))
        &&& form_3(words) ==> (if parse_u64_spec(words[3]) is None { (result matches Err(m) && m@ == "invalid Task ID: "@ + words[3]) } else { (result matches Ok((Command::Start { kind: SessionKind::Focus, task_id: Some(id_v) }, j, w)) && j == json && w == waybar && id_v == parse_u64_spec(words[3])->Some_0) })
        &&& form_4(words) ==> ((result matches Ok((Command::StartTitle { title }, j, w)) && j == json && w == waybar && title@ == words[3]))
        &&& form_5(words) ==> ((result matches Ok((Command::Start { kind: SessionKind::ShortBreak, task_id: None }, j, w)) && j == json && w == waybar))
        &&& form_6(words) ==> ((result matches Ok((Command::Start { kind: SessionKind::LongBreak, task_id: None }, j, w)) && j == json && w == waybar))
        &&& form_7(words) ==> ((result matches Ok((Command::Pause, j, w)) && j == json && w == waybar))
        &&& form_8(words) ==> ((result matches Ok((Command::Resume, j, w)) && j == json && w == waybar))
        &&& form_9(words) ==> ((result matches Ok((Command::Stop, j, w)) && j == json && w == waybar))
        &&& form_10(words) ==> ((result matches Ok((Command::Stop, j, w)) && j == json && w == waybar))
        &&& form_11(words) ==> ((result matches Ok((Command::StopReview, j, w)) && j == json && w == waybar))
        &&& form_12(words) ==> ((result matches Ok((Command::Skip, j, w)) && j == json && w == waybar))
        &&& form_13(words) ==> ((result matches Ok((Command::TaskList, j, w)) && j == json && w == waybar))
        &&& form_14(words) ==> ((result matches Ok((Command::TaskCreate { title }, j, w)) && j == json && w == waybar && title@ == words[2]))
        &&& form_15(words) ==> (if parse_u64_spec(words[2]) is None { (result matches Err(m) && m@ == "invalid Task ID: "@ + words[2]) } else { (result matches Ok((Command::TaskRename { id: id_v, title }, j, w)) && j == json && w == waybar && title@ == words[3] && id_v == parse_u64_spec(words[2])->Some_0) })
        &&& form_16(words) ==> (if parse_u64_spec(words[2]) is None { (result matches Err(m) && m@ == "invalid Task ID: "@ + words[2]) } else { (result matches Ok((Command::TaskComplete { id: id_v }, j, w)) && j == json && w == waybar && id_v == parse_u64_spec(words[2])->Some_0) })
        &&& form_17(words) ==> (if parse_u64_spec(words[2]) is None { (result matches Err(m) && m@ == "invalid Task ID: "@ + words[2]) } else { (result matches Ok((Command::TaskReopen { id: id_v }, j, w)) && j == json && w == waybar && id_v == parse_u64_spec(words[2])->Some_0) })
        &&& form_18(words) ==> (if parse_u64_spec(words[2]) is None { (result matches Err(m) && m@ == "invalid Task ID: "@ + words[2]) } else { (result matches Ok((Command::TaskDelete { id: id_v }, j, w)) && j == json && w == waybar && id_v == parse_u64_spec(words[2])->Some_0) })
        &&& form_19(words) ==> ((result matches Ok((Command::History, j, w)) && j == json && w == waybar))
        &&& form_20(words) ==> ((result matches Ok((Command::Summary, j, w)) && j == json && w == waybar))
        &&& form_21(words) ==> ((result matches Ok((Command::ReviewSuccess { reflection: None }, j, w)) && j == json && w == waybar))
        &&& form_22(words) ==> ((result matches Ok((Command::ReviewSuccess { reflection: Some(reflection) }, j, w)) && j == json && w == waybar && reflection@ == words[3]))
        &&& form_23(words) ==> (if parse_u64_spec(words[3]) is None { (result matches Err(m) && m@ == "invalid Task ID: "@ + words[3]) } else { (result matches Ok((Command::ReviewSuccessAssign { task_id: Some(id_v), use_void: false, chain_entry_title: None, reflection: None }, j, w)) && j == json && w == waybar && id_v == parse_u64_spec(words[3])->Some_0) })
        &&& form_24(words) ==> ((result matches Ok((Command::ReviewSuccessAssign { task_id: None, use_void: true, chain_entry_title: Some(title), reflection: None }, j, w)) && j == json && w == waybar && title@ == words[3]))
        &&& form_25(words) ==> ((result matches Ok((Command::ReviewSuccessAssign { task_id: None, use_void: true, chain_entry_title: Some(title), reflection: Some(reflection) }, j, w)) && j == json && w == waybar && title@ == words[3] && reflection@ == words[5]))
        &&& form_26(words) ==> ((result matches Ok((Command::ActionChainCurrent, j, w)) && j == json && w == waybar))
        &&& form_27(words) ==> ((result matches Ok((Command::ActionChainArchive, j, w)) && j == json && w == waybar))
        &&& form_28(words) ==> (if parse_u64_spec(words[2]) is None { (result matches Err(m) && m@ == "invalid Task ID: "@ + words[2]) } else { (result matches Ok((Command::ChainEntryEdit { id: id_v, reflection: Some(reflection), chain_entry_title: None }, j, w)) && j == json && w == waybar && reflection@ == words[4] && id_v == parse_u64_spec(words[2])->Some_0) })
        &&& form_29(words) ==> (if parse_u64_spec(words[2]) is None { (result matches Err(m) && m@ == "invalid Task ID: "@ + words[2]) } else { (result matches Ok((Command::ChainEntryEdit { id: id_v, reflection: None, chain_entry_title: Some(title) }, j, w)) && j == json && w == waybar && title@ == words[4] && id_v == parse_u64_spec(words[2])->Some_0) })
        &&& form_30(words) ==> (if parse_u64_spec(words[2]) is None { (result matches Err(m) && m@ == "invalid Task ID: "@ + words[2]) } else { (result matches Ok((Command::ChainEntryEdit { id: id_v, reflection: Some(reflection), chain_entry_title: Some(title) }, j, w)) && j == json && w == waybar && title@ == words[4] && reflection@ == words[6] && id_v == parse_u64_spec(words[2])->Some_0) })
        &&& form_31(words) ==> ((result matches Ok((Command::ReviewFailure { reflection, task_id: None, use_void: false, chain_entry_title: None }, j, w)) && j == json && w == waybar && reflection@ == words[2]))
        &&& form_32(words) ==> (if parse_u64_spec(words[3]) is None { (result matches Err(m) && m@ == "invalid Task ID: "@ + words[3]) } else { (result matches Ok((Command::ReviewFailure { reflection, task_id: Some(id_v), use_void: false, chain_entry_title: None }, j, w)) && j == json && w == waybar && reflection@ == words[4] && id_v == parse_u64_spec(words[3])->Some_0) })
        &&& form_33(words) ==> ((result matches Ok((Command::ReviewFailure { reflection, task_id: None, use_void: true, chain_entry_title: Some(title) }, j, w)) && j == json && w == waybar && title@ == words[3] && reflection@ == words[4]))
        &&& form_34(words) ==> ((result matches Ok((Command::Rewards, j, w)) && j == json && w == waybar))
        &&& form_35(words) ==> (if parse_u64_spec(words[2]) is None { (result matches Err(m) && m@ == "invalid Task ID: "@ + words[2]) } else { (result matches Ok((Command::RewardCreate { name, threshold: threshold_v, budget: None }, j, w)) && j == json && w == waybar && name@ == words[3] && threshold_v == parse_u64_spec(words[2])->Some_0) })
        &&& form_36(words) ==> (if parse_u64_spec(words[2]) is None { (result matches Err(m) && m@ == "invalid Task ID: "@ + words[2]) } else { if parse_u64_spec(words[5]) is None { (result matches Err(m) && m@ == "invalid Task ID: "@ + words[5]) } else { (result matches Ok((Command::RewardCreate { name, threshold: threshold_v, budget: Some(budget_v) }, j, w)) && j == json && w == waybar && name@ == words[3] && threshold_v == parse_u64_spec(words[2])->Some_0 && budget_v == parse_u64_spec(words[5])->Some_0) } })
        &&& form_37(words) ==> (if parse_u64_spec(words[2]) is None { (result matches Err(m) && m@ == "invalid Task ID: "@ + words[2]) } else { if parse_u64_spec(words[3]) is None { (result matches Err(m) && m@ == "invalid Task ID: "@ + words[3]) } else { (result matches Ok((Command::RewardUpdate { id: id_v, name, threshold: threshold_v, budget: None }, j, w)) && j == json && w == waybar && name@ == words[4] && id_v == parse_u64_spec(words[2])->Some_0 && threshold_v == parse_u64_spec(words[3])->Some_0) } })
        &&& form_38(words) ==> (if parse_u64_spec(words[2]) is None { (result matches Err(m) && m@ == "invalid Task ID: "@ + words[2]) } else { (result matches Ok((Command::RewardDelete { id: id_v }, j, w)) && j == json && w == waybar && id_v == parse_u64_spec(words[2])->Some_0) })
        &&& form_39(words) ==> (if parse_u64_spec(words[2]) is None { (result matches Err(m) && m@ == "invalid Task ID: "@ + words[2]) } else { (result matches Ok((Command::RewardClaim { unlock_id: id_v }, j, w)) && j == json && w == waybar && id_v == parse_u64_spec(words[2])->Some_0) })
            &&& !known_form(words) ==> (result matches Err(m) && m@ == usage_text())
        }),
{
    let ghost all = args@.map_values(|a: String| a@);
    let mut json = false;
    let mut words: Vec<String> = Vec::new();
    let mut i: usize = 0;
    while i < args.len()
        invariant
            i <= args@.len(),
            all == args@.map_values(|a: String| a@),
            json == all.subrange(0, i as int).contains("--json"@),
            words@.map_values(|w: String| w@) == cli_words(all.subrange(0, i as int)),
        decreases args@.len() - i,
    {
        proof {
            reveal_with_fuel(Seq::filter, 1);
            assert(all.subrange(0, i as int + 1).drop_last() =~= all.subrange(0, i as int));
            assert(all.subrange(0, i as int + 1).last() == args@[i as int]@);
        }
        if str_equal(args[i].as_str(), "--json") {
            json = true;
            proof {
                assert(all.subrange(0, i as int + 1)[i as int] == "--json"@);
            }
        } else {
            let ghost before = words@;
            words.push(args[i].clone());
            proof {
                assert(words@.map_values(|w: String| w@) =~= before.map_values(|w: String| w@).push(args@[i as int]@));
            }
        }
        i = i + 1;
        proof {
            let sub = all.subrange(0, i as int);
            assert(sub.contains("--json"@) == (sub.drop_last().contains("--json"@) || sub.last() == "--json"@)) by {
                if sub.drop_last().contains("--json"@) {
                    let k = choose|k: int| 0 <= k < sub.drop_last().len() && sub.drop_last()[k] == "--json"@;
                    assert(sub[k] == "--json"@);
                }
                if sub.contains("--json"@) {
                    let k = choose|k: int| 0 <= k < sub.len() && sub[k] == "--json"@;
                    if k < sub.len() - 1 {
                        assert(sub.drop_last()[k] == "--json"@);
                    }
                }
            }
        }
    }
    proof {
        assert(all.subrange(0, args@.len() as int) =~= all);
    }
    let ghost ws = words@.map_values(|w: String| w@);
    assert(forall|k: int| 0 <= k < words@.len() ==> (#[trigger] words@[k])@ == ws[k]);
    let waybar = words.len() == 1 && str_equal(words[0].as_str(), "waybar");
    proof {
        reveal_strlit("--budget");
        reveal_strlit("--no-review");
        reveal_strlit("--reflection");
        reveal_strlit("--review");
        reveal_strlit("--task");
        reveal_strlit("--title");
        reveal_strlit("--void");
        reveal_strlit("archive");
        reveal_strlit("chain");
        reveal_strlit("claim");
        reveal_strlit("complete");
        reveal_strlit("create");
        reveal_strlit("delete");
        reveal_strlit("edit");
        reveal_strlit("failure");
        reveal_strlit("focus");
        reveal_strlit("history");
        reveal_strlit("list");
        reveal_strlit("long-break");
        reveal_strlit("pause");
        reveal_strlit("rename");
        reveal_strlit("reopen");
        reveal_strlit("resume");
        reveal_strlit("review");
        reveal_strlit("reward");
        reveal_strlit("short-break");
        reveal_strlit("skip");
        reveal_strlit("start");
        reveal_strlit("status");
        reveal_strlit("stop");
        reveal_strlit("success");
        reveal_strlit("summary");
        reveal_strlit("task");
        reveal_strlit("update");
        reveal_strlit("waybar");
        assert("--budget"@[2] != "--review"@[2]);
        assert("--budget"@[0] != "complete"@[0]);
        assert("--no-review"@[0] != "short-break"@[0]);
        assert("--review"@[0] != "complete"@[0]);
        assert("--task"@[2] != "--void"@[2]);
        assert("--task"@[0] != "create"@[0]);
        assert("--task"@[0] != "delete"@[0]);
        assert("--task"@[0] != "rename"@[0]);
        assert("--task"@[0] != "reopen"@[0]);
        assert("--task"@[0] != "resume"@[0]);
        assert("--task"@[0] != "review"@[0]);
        assert("--task"@[0] != "reward"@[0]);
        assert("--task"@[0] != "status"@[0]);
        assert("--task"@[0] != "update"@[0]);
        assert("--task"@[0] != "waybar"@[0]);
        assert("--title"@[0] != "archive"@[0]);
        assert("--title"@[0] != "failure"@[0]);
        assert("--title"@[0] != "history"@[0]);
        assert("--title"@[0] != "success"@[0]);
        assert("--title"@[0] != "summary"@[0]);
        assert("--void"@[0] != "create"@[0]);
        assert("--void"@[0] != "delete"@[0]);
        assert("--void"@[0] != "rename"@[0]);
        assert("--void"@[0] != "reopen"@[0]);
        assert("--void"@[0] != "resume"@[0]);
        assert("--void"@[0] != "review"@[0]);
        assert("--void"@[0] != "reward"@[0]);
        assert("--void"@[0] != "status"@[0]);
        assert("--void"@[0] != "update"@[0]);
        assert("--void"@[0] != "waybar"@[0]);
        assert("archive"@[0] != "failure"@[0]);
        assert("archive"@[0] != "history"@[0]);
        assert("archive"@[0] != "success"@[0]);
        assert("archive"@[0] != "summary"@[0]);
        assert("chain"@[1] != "claim"@[1]);
        assert("chain"@[0] != "focus"@[0]);
        assert("chain"@[0] != "pause"@[0]);
        assert("chain"@[0] != "start"@[0]);
        assert("claim"@[0] != "focus"@[0]);
        assert("claim"@[0] != "pause"@[0]);
        assert("claim"@[0] != "start"@[0]);
        assert("create"@[0] != "delete"@[0]);
        assert("create"@[0] != "rename"@[0]);
        assert("create"@[0] != "reopen"@[0]);
        assert("create"@[0] != "resume"@[0]);
        assert("create"@[0] != "review"@[0]);
        assert("create"@[0] != "reward"@[0]);
        assert("create"@[0] != "status"@[0]);
        assert("create"@[0] != "update"@[0]);
        assert("create"@[0] != "waybar"@[0]);
        assert("delete"@[0] != "rename"@[0]);
        assert("delete"@[0] != "reopen"@[0]);
        assert("delete"@[0] != "resume"@[0]);
        assert("delete"@[0] != "review"@[0]);
        assert("delete"@[0] != "reward"@[0]);
        assert("delete"@[0] != "status"@[0]);
        assert("delete"@[0] != "update"@[0]);
        assert("delete"@[0] != "waybar"@[0]);
        assert("edit"@[0] != "list"@[0]);
        assert("edit"@[0] != "skip"@[0]);
        assert("edit"@[0] != "stop"@[0]);
        assert("edit"@[0] != "task"@[0]);
        assert("failure"@[0] != "history"@[0]);
        assert("failure"@[0] != "success"@[0]);
        assert("failure"@[0] != "summary"@[0]);
        assert("focus"@[0] != "pause"@[0]);
        assert("focus"@[0] != "start"@[0]);
        assert("history"@[0] != "success"@[0]);
        assert("history"@[0] != "summary"@[0]);
        assert("list"@[0] != "skip"@[0]);
        assert("list"@[0] != "stop"@[0]);
        assert("list"@[0] != "task"@[0]);
        assert("pause"@[0] != "start"@[0]);
        assert("rename"@[2] != "reopen"@[2]);
        assert("rename"@[2] != "resume"@[2]);
        assert("rename"@[2] != "review"@[2]);
        assert("rename"@[2] != "reward"@[2]);
        assert("rename"@[0] != "status"@[0]);
        assert("rename"@[0] != "update"@[0]);
        assert("rename"@[0] != "waybar"@[0]);
        assert("reopen"@[2] != "resume"@[2]);
        assert("reopen"@[2] != "review"@[2]);
        assert("reopen"@[2] != "reward"@[2]);
        assert("reopen"@[0] != "status"@[0]);
        assert("reopen"@[0] != "update"@[0]);
        assert("reopen"@[0] != "waybar"@[0]);
        assert("resume"@[2] != "review"@[2]);
        assert("resume"@[2] != "reward"@[2]);
        assert("resume"@[0] != "status"@[0]);
        assert("resume"@[0] != "update"@[0]);
        assert("resume"@[0] != "waybar"@[0]);
        assert("review"@[2] != "reward"@[2]);
        assert("review"@[0] != "status"@[0]);
        assert("review"@[0] != "update"@[0]);
        assert("review"@[0] != "waybar"@[0]);
        assert("reward"@[0] != "status"@[0]);
        assert("reward"@[0] != "update"@[0]);
        assert("reward"@[0] != "waybar"@[0]);
        assert("skip"@[1] != "stop"@[1]);
        assert("skip"@[0] != "task"@[0]);
        assert("status"@[0] != "update"@[0]);
        assert("status"@[0] != "waybar"@[0]);
        assert("stop"@[0] != "task"@[0]);
        assert("success"@[2] != "summary"@[2]);
        assert("update"@[0] != "waybar"@[0]);
    }
    proof {
        if words.len() == 1 && ws[0] == "waybar"@ {
            assert(ws =~= seq!["waybar"@]);
        }
    }
    if words.len() == 1
        && str_equal(words[0].as_str(), "status") {
        return Ok((Command::Status, json, waybar));
    }
    if words.len() == 1
        && str_equal(words[0].as_str(), "waybar") {
        return Ok((Command::Status, json, waybar));
    }
    if words.len() == 2
        && str_equal(words[0].as_str(), "start")
        && str_equal(words[1].as_str(), "focus") {
        return Ok((Command::Start { kind: SessionKind::Focus, task_id: None }, json, waybar));
    }
    if words.len() == 4
        && str_equal(words[0].as_str(), "start")
        && str_equal(words[1].as_str(), "focus")
        && str_equal(words[2].as_str(), "--task") {
        let id = match parse_id(words[3].as_str()) { Ok(n) => n, Err(e) => { return Err(e); } };
        return Ok((Command::Start { kind: SessionKind::Focus, task_id: Some(id) }, json, waybar));
    }
    if words.len() == 4
        && str_equal(words[0].as_str(), "start")
        && str_equal(words[1].as_str(), "focus")
        && str_equal(words[2].as_str(), "--title") {
        let title = words[3].clone();
        return Ok((Command::StartTitle { title }, json, waybar));
    }
    if words.len() == 2
        && str_equal(words[0].as_str(), "start")
        && str_equal(words[1].as_str(), "short-break") {
        return Ok((Command::Start { kind: SessionKind::ShortBreak, task_id: None }, json, waybar));
    }
    if words.len() == 2
        && str_equal(words[0].as_str(), "start")
        && str_equal(words[1].as_str(), "long-break") {
        return Ok((Command::Start { kind: SessionKind::LongBreak, task_id: None }, json, waybar));
    }
    if words.len() == 1
        && str_equal(words[0].as_str(), "pause") {
        return Ok((Command::Pause, json, waybar));
    }
    if words.len() == 1
        && str_equal(words[0].as_str(), "resume") {
        return Ok((Command::Resume, json, waybar));
    }
    if words.len() == 1
        && str_equal(words[0].as_str(), "stop") {
        return Ok((Command::Stop, json, waybar));
    }
    if words.len() == 2
        && str_equal(words[0].as_str(), "stop")
        && str_equal(words[1].as_str(), "--no-review") {
        return Ok((Command::Stop, json, waybar));
    }
    if words.len() == 2
        && str_equal(words[0].as_str(), "stop")
        && str_equal(words[1].as_str(), "--review") {
        return Ok((Command::StopReview, json, waybar));
    }
    if words.len() == 1
        && str_equal(words[0].as_str(), "skip") {
        return Ok((Command::Skip, json, waybar));
    }
    if words.len() == 2
        && str_equal(words[0].as_str(), "task")
        && str_equal(words[1].as_str(), "list") {
        return Ok((Command::TaskList, json, waybar));
    }
    if words.len() == 3
        && str_equal(words[0].as_str(), "task")
        && str_equal(words[1].as_str(), "create") {
        let title = words[2].clone();
        return Ok((Command::TaskCreate { title }, json, waybar));
    }
    if words.len() == 4
        && str_equal(words[0].as_str(), "task")
        && str_equal(words[1].as_str(), "rename") {
        let id = match parse_id(words[2].as_str()) { Ok(n) => n, Err(e) => { return Err(e); } };
        let title = words[3].clone();
        return Ok((Command::TaskRename { id, title }, json, waybar));
    }
    if words.len() == 3
        && str_equal(words[0].as_str(), "task")
        && str_equal(words[1].as_str(), "complete") {
        let id = match parse_id(words[2].as_str()) { Ok(n) => n, Err(e) => { return Err(e); } };
        return Ok((Command::TaskComplete { id }, json, waybar));
    }
    if words.len() == 3
        && str_equal(words[0].as_str(), "task")
        && str_equal(words[1].as_str(), "reopen") {
        let id = match parse_id(words[2].as_str()) { Ok(n) => n, Err(e) => { return Err(e); } };
        return Ok((Command::TaskReopen { id }, json, waybar));
    }
    if words.len() == 3
        && str_equal(words[0].as_str(), "task")
        && str_equal(words[1].as_str(), "delete") {
        let id = match parse_id(words[2].as_str()) { Ok(n) => n, Err(e) => { return Err(e); } };
        return Ok((Command::TaskDelete { id }, json, waybar));
    }
    if words.len() == 1
        && str_equal(words[0].as_str(), "history") {
        return Ok((Command::History, json, waybar));
    }
    if words.len() == 1
        && str_equal(words[0].as_str(), "summary") {
        return Ok((Command::Summary, json, waybar));
    }
    if words.len() == 2
        && str_equal(words[0].as_str(), "review")
        && str_equal(words[1].as_str(), "success") {
        return Ok((Command::ReviewSuccess { reflection: None }, json, waybar));
    }
    if words.len() == 4
        && str_equal(words[0].as_str(), "review")
        && str_equal(words[1].as_str(), "success")
        && str_equal(words[2].as_str(), "--reflection") {
        let reflection = words[3].clone();
        return Ok((Command::ReviewSuccess { reflection: Some(reflection) }, json, waybar));
    }
    if words.len() == 4
        && str_equal(words[0].as_str(), "review")
        && str_equal(words[1].as_str(), "success")
        && str_equal(words[2].as_str(), "--task") {
        let id = match parse_id(words[3].as_str()) { Ok(n) => n, Err(e) => { return Err(e); } };
        return Ok((Command::ReviewSuccessAssign { task_id: Some(id), use_void: false, chain_entry_title: None, reflection: None }, json, waybar));
    }
    if words.len() == 4
        && str_equal(words[0].as_str(), "review")
        && str_equal(words[1].as_str(), "success")
        && str_equal(words[2].as_str(), "--void") {
        let title = words[3].clone();
        return Ok((Command::ReviewSuccessAssign { task_id: None, use_void: true, chain_entry_title: Some(title), reflection: None }, json, waybar));
    }
    if words.len() == 6
        && str_equal(words[0].as_str(), "review")
        && str_equal(words[1].as_str(), "success")
        && str_equal(words[2].as_str(), "--void")
        && str_equal(words[4].as_str(), "--reflection") {
        let title = words[3].clone();
        let reflection = words[5].clone();
        return Ok((Command::ReviewSuccessAssign { task_id: None, use_void: true, chain_entry_title: Some(title), reflection: Some(reflection) }, json, waybar));
    }
    if words.len() == 1
        && str_equal(words[0].as_str(), "chain") {
        return Ok((Command::ActionChainCurrent, json, waybar));
    }
    if words.len() == 2
        && str_equal(words[0].as_str(), "chain")
        && str_equal(words[1].as_str(), "archive") {
        return Ok((Command::ActionChainArchive, json, waybar));
    }
    if words.len() == 5
        && str_equal(words[0].as_str(), "chain")
        && str_equal(words[1].as_str(), "edit")
        && str_equal(words[3].as_str(), "--reflection") {
        let id = match parse_id(words[2].as_str()) { Ok(n) => n, Err(e) => { return Err(e); } };
        let reflection = words[4].clone();
        return Ok((Command::ChainEntryEdit { id, reflection: Some(reflection), chain_entry_title: None }, json, waybar));
    }
    if words.len() == 5
        && str_equal(words[0].as_str(), "chain")
        && str_equal(words[1].as_str(), "edit")
        && str_equal(words[3].as_str(), "--title") {
        let id = match parse_id(words[2].as_str()) { Ok(n) => n, Err(e) => { return Err(e); } };
        let title = words[4].clone();
        return Ok((Command::ChainEntryEdit { id, reflection: None, chain_entry_title: Some(title) }, json, waybar));
    }
    if words.len() == 7
        && str_equal(words[0].as_str(), "chain")
        && str_equal(words[1].as_str(), "edit")
        && str_equal(words[3].as_str(), "--title")
        && str_equal(words[5].as_str(), "--reflection") {
        let id = match parse_id(words[2].as_str()) { Ok(n) => n, Err(e) => { return Err(e); } };
        let title = words[4].clone();
        let reflection = words[6].clone();
        return Ok((Command::ChainEntryEdit { id, reflection: Some(reflection), chain_entry_title: Some(title) }, json, waybar));
    }
    if words.len() == 3
        && str_equal(words[0].as_str(), "review")
        && str_equal(words[1].as_str(), "failure") {
        let reflection = words[2].clone();
        return Ok((Command::ReviewFailure { reflection, task_id: None, use_void: false, chain_entry_title: None }, json, waybar));
    }
    if words.len() == 5
        && str_equal(words[0].as_str(), "review")
        && str_equal(words[1].as_str(), "failure")
        && str_equal(words[2].as_str(), "--task") {
        let id = match parse_id(words[3].as_str()) { Ok(n) => n, Err(e) => { return Err(e); } };
        let reflection = words[4].clone();
        return Ok((Command::ReviewFailure { reflection, task_id: Some(id), use_void: false, chain_entry_title: None }, json, waybar));
    }
    if words.len() == 5
        && str_equal(words[0].as_str(), "review")
        && str_equal(words[1].as_str(), "failure")
        && str_equal(words[2].as_str(), "--void") {
        let title = words[3].clone();
        let reflection = words[4].clone();
        return Ok((Command::ReviewFailure { reflection, task_id: None, use_void: true, chain_entry_title: Some(title) }, json, waybar));
    }
    if words.len() == 2
        && str_equal(words[0].as_str(), "reward")
        && str_equal(words[1].as_str(), "list") {
        return Ok((Command::Rewards, json, waybar));
    }
    if words.len() == 4
        && str_equal(words[0].as_str(), "reward")
        && str_equal(words[1].as_str(), "create") {
        let threshold = match parse_id(words[2].as_str()) { Ok(n) => n, Err(e) => { return Err(e); } };
        let name = words[3].clone();
        return Ok((Command::RewardCreate { name, threshold, budget: None }, json, waybar));
    }
    if words.len() == 6
        && str_equal(words[0].as_str(), "reward")
        && str_equal(words[1].as_str(), "create")
        && str_equal(words[4].as_str(), "--budget") {
        let threshold = match parse_id(words[2].as_str()) { Ok(n) => n, Err(e) => { return Err(e); } };
        let name = words[3].clone();
        let budget = match parse_id(words[5].as_str()) { Ok(n) => n, Err(e) => { return Err(e); } };
        return Ok((Command::RewardCreate { name, threshold, budget: Some(budget) }, json, waybar));
    }
    if words.len() == 5
        && str_equal(words[0].as_str(), "reward")
        && str_equal(words[1].as_str(), "update") {
        let id = match parse_id(words[2].as_str()) { Ok(n) => n, Err(e) => { return Err(e); } };
        let threshold = match parse_id(words[3].as_str()) { Ok(n) => n, Err(e) => { return Err(e); } };
        let name = words[4].clone();
        return Ok((Command::RewardUpdate { id, name, threshold, budget: None }, json, waybar));
    }
    if words.len() == 3
        && str_equal(words[0].as_str(), "reward")
        && str_equal(words[1].as_str(), "delete") {
        let id = match parse_id(words[2].as_str()) { Ok(n) => n, Err(e) => { return Err(e); } };
        return Ok((Command::RewardDelete { id }, json, waybar));
    }
    if words.len() == 3
        && str_equal(words[0].as_str(), "reward")
        && str_equal(words[1].as_str(), "claim") {
        let id = match parse_id(words[2].as_str()) { Ok(n) => n, Err(e) => { return Err(e); } };
        return Ok((Command::RewardClaim { unlock_id: id }, json, waybar));
    }
    Err(String::from_str("usage: pomotui [--json] status|start focus [--task ID|--title TITLE]|start <short-break|long-break>|pause|resume|stop|skip|task ...|history|summary|waybar"))
}


/// A request for `command`; a mutation carries `unique` as its idempotency
/// key, a read carries none.
pub fn request(command: Command, unique: String) -> (request: Request)
    ensures
        request.version == PROTOCOL_VERSION,
        request.command == command,
        request.idempotency_key == if command_mutates(command) {
            Some(unique)
        } else {
            None
        },
{
    let key = if command.mutates() {
        Some(unique)
    } else {
        None
    };
    Request { version: PROTOCOL_VERSION, idempotency_key: key, command }
}

/// `MM:SS` for a number of seconds.
pub fn clock(seconds: u64) -> (text: String)
    ensures
        text@ == minutes_seconds(seconds),
{
    minutes_seconds_string(seconds)
}

/// The share of the planned time that remains, as a whole percentage at most
/// 100, and 0 for a Session with no planned time.
pub open spec fn percentage_spec(remaining: u64, planned: u64) -> u64 {
    if planned == 0 {
        0
    } else {
        let scaled = if remaining * 100 > u64::MAX {
            u64::MAX as int
        } else {
            remaining * 100
        };
        if scaled / (planned as int) < 100 {
            (scaled / (planned as int)) as u64
        } else {
            100
        }
    }
}

pub fn percentage(remaining: u64, planned: u64) -> (share: u64)
    ensures
        share == percentage_spec(remaining, planned),
{
    if planned == 0 {
        return 0;
    }
    let scaled: u64 = if remaining > u64::MAX / 100 {
        u64::MAX
    } else {
        remaining * 100
    };
    proof {
        assert(remaining > u64::MAX / 100 <==> remaining * 100 > u64::MAX) by (nonlinear_arith);
    }
    let share = scaled / planned;
    if share < 100 {
        share
    } else {
        100
    }
}

/// The reminder delivery state worth showing: exhausted before retrying
/// before pending, nothing when all were delivered.
pub open spec fn delivery_label_spec(d: ReminderDelivery) -> Seq<char> {
    if d.exhausted > 0 {
        " · reminders exhausted: "@ + decimal(d.exhausted as nat)
    } else if d.retrying > 0 {
        " · reminders retrying: "@ + decimal(d.retrying as nat)
    } else if d.pending > 0 {
        " · reminders pending: "@ + decimal(d.pending as nat)
    } else {
        Seq::empty()
    }
}

pub fn reminder_delivery_label(d: &ReminderDelivery) -> (label: String)
    ensures
        label@ == delivery_label_spec(*d),
{
    if d.exhausted > 0 {
        let n = decimal_string(d.exhausted as u64);
        concat(" · reminders exhausted: ", n.as_str())
    } else if d.retrying > 0 {
        let n = decimal_string(d.retrying as u64);
        concat(" · reminders retrying: ", n.as_str())
    } else if d.pending > 0 {
        let n = decimal_string(d.pending as u64);
        concat(" · reminders pending: ", n.as_str())
    } else {
        String::new()
    }
}

/// The name of a Session kind as it is shown.
pub open spec fn kind_name(kind: SessionKind) -> Seq<char> {
    match kind {
        SessionKind::Focus => "Focus"@,
        SessionKind::ShortBreak => "ShortBreak"@,
        SessionKind::LongBreak => "LongBreak"@,
    }
}

fn kind_str(kind: SessionKind) -> (name: &'static str)
    ensures
        name@ == kind_name(kind),
{
    match kind {
        SessionKind::Focus => "Focus",
        SessionKind::ShortBreak => "ShortBreak",
        SessionKind::LongBreak => "LongBreak",
    }
}

/// The lower-case class name of a Session kind.
pub open spec fn kind_class(kind: SessionKind) -> Seq<char> {
    match kind {
        SessionKind::Focus => "focus"@,
        SessionKind::ShortBreak => "shortbreak"@,
        SessionKind::LongBreak => "longbreak"@,
    }
}

/// The one-line human status.
pub open spec fn human_status_spec(s: Snapshot) -> Seq<char> {
    kind_name(s.kind) + " "@ + minutes_seconds(s.remaining_seconds) + " · "@ + s.state@ + " · round "@
        + decimal(s.completed_rounds as nat) + "/"@ + decimal(s.rounds_per_cycle as nat) + " · chain "@
        + decimal(s.action_chain.length as nat) + (if s.pending_review is Some {
        " · pending review"@
    } else {
        Seq::empty()
    }) + delivery_label_spec(s.reminder_delivery)
}

/// The one-line human status of a snapshot.
pub fn human_status(s: &Snapshot) -> (line: String)
    ensures
        line@ == human_status_spec(*s),
{
    let clock_text = clock(s.remaining_seconds);
    let a = concat3(kind_str(s.kind), " ", clock_text.as_str());
    let b = concat3(a.as_str(), " · ", s.state.as_str());
    let completed = decimal_string(s.completed_rounds as u64);
    let c = concat3(b.as_str(), " · round ", completed.as_str());
    let rounds = decimal_string(s.rounds_per_cycle as u64);
    let d = concat3(c.as_str(), "/", rounds.as_str());
    let length = decimal_string(s.action_chain.length);
    let e = concat3(d.as_str(), " · chain ", length.as_str());
    let review = if s.pending_review.is_some() {
        " · pending review"
    } else {
        ""
    };
    let delivery = reminder_delivery_label(&s.reminder_delivery);
    let line = concat3(e.as_str(), review, delivery.as_str());
    proof {
        reveal_strlit("");
        if s.pending_review is None {
            assert(""@ =~= Seq::<char>::empty());
        }
    }
    line
}

/// The fields of the Waybar status module.
#[derive(Clone, Debug, PartialEq, Eq)]
pub struct WaybarStatus {
    pub text: String,
    pub tooltip: String,
    pub class: [String; 2],
    pub percentage: u64,
}

/// Whether `status` is the Waybar status of the snapshot `s`: the state and
/// clock as text, the kind, round and reminder delivery as tooltip, the state
/// and kind as its two classes, and the share of time left.
pub open spec fn waybar_reports(status: WaybarStatus, s: Snapshot) -> bool {
    &&& status.text@ == s.state@ + " "@ + minutes_seconds(s.remaining_seconds)
    &&& status.tooltip@ == kind_name(s.kind) + " · round "@ + decimal(s.completed_rounds as nat)
        + "/"@ + decimal(s.rounds_per_cycle as nat) + delivery_label_spec(s.reminder_delivery)
    &&& status.class@.len() == 2
    &&& status.class@[0]@ == s.state@
    &&& status.class@[1]@ == kind_class(s.kind)
    &&& status.percentage == percentage_spec(s.remaining_seconds, s.planned_seconds)
}

/// The Waybar status of a snapshot.
pub fn waybar_status(s: &Snapshot) -> (status: WaybarStatus)
    ensures
        waybar_reports(status, *s),
{
    let clock_text = clock(s.remaining_seconds);
    let text = concat3(s.state.as_str(), " ", clock_text.as_str());
    let completed = decimal_string(s.completed_rounds as u64);
    let a = concat3(kind_str(s.kind), " · round ", completed.as_str());
    let rounds = decimal_string(s.rounds_per_cycle as u64);
    let b = concat3(a.as_str(), "/", rounds.as_str());
    let delivery = reminder_delivery_label(&s.reminder_delivery);
    let tooltip = concat(b.as_str(), delivery.as_str());
    let class_name = match s.kind {
        SessionKind::Focus => "focus",
        SessionKind::ShortBreak => "shortbreak",
        SessionKind::LongBreak => "longbreak",
    };
    WaybarStatus {
        text,
        tooltip,
        class: [s.state.clone(), String::from_str(class_name)],
        percentage: percentage(s.remaining_seconds, s.planned_seconds),
    }
}

/// The name of a title rule, as Rust's `Debug` writes it.
pub open spec fn rule_name(rule: TaskTitleRule) -> Seq<char> {
    match rule {
        TaskTitleRule::Empty => "Empty"@,
        TaskTitleRule::UnsafeCharacter => "UnsafeCharacter"@,
        TaskTitleRule::TooLong => "TooLong"@,
        TaskTitleRule::TooWide => "TooWide"@,
    }
}

/// What a refused request shows: the message of a rejection, a
/// disconnection or a malformed frame, else the error as Rust's `Debug`
/// writes it.
pub open spec fn error_text(e: ProtocolError) -> Seq<char> {
    match e {
        ProtocolError::Rejected { message } => message@,
        ProtocolError::Disconnected { message } => message@,
        ProtocolError::Malformed { message } => message@,
        ProtocolError::IncompatibleVersion { received, supported } => "IncompatibleVersion { received: "@
            + decimal(received as nat) + ", supported: "@ + decimal(supported as nat) + " }"@,
        ProtocolError::MissingIdempotencyKey => "MissingIdempotencyKey"@,
        ProtocolError::RequestTooLarge { max_bytes } => "RequestTooLarge { max_bytes: "@ + decimal(
            max_bytes as nat,
        ) + " }"@,
        ProtocolError::RequestTimeout => "RequestTimeout"@,
        ProtocolError::ServerBusy => "ServerBusy"@,
        ProtocolError::InvalidTaskTitle { rule } => "InvalidTaskTitle { rule: "@ + rule_name(rule)
            + " }"@,
        ProtocolError::DurableWriteUnavailable { message } => "DurableWriteUnavailable { message: "@
            + debug_text(message@) + " }"@,
    }
}

pub fn error_message(e: &ProtocolError) -> (text: String)
    ensures
        text@ == error_text(*e),
{
    match e {
        ProtocolError::Rejected { message } => message.clone(),
        ProtocolError::Disconnected { message } => message.clone(),
        ProtocolError::Malformed { message } => message.clone(),
        ProtocolError::IncompatibleVersion { received, supported } => {
            let r = decimal_string(*received as u64);
            let s = decimal_string(*supported as u64);
            let a = concat3("IncompatibleVersion { received: ", r.as_str(), ", supported: ");
            concat3(a.as_str(), s.as_str(), " }")
        },
        ProtocolError::MissingIdempotencyKey => String::from_str("MissingIdempotencyKey"),
        ProtocolError::RequestTooLarge { max_bytes } => {
            let n = decimal_string(*max_bytes as u64);
            concat3("RequestTooLarge { max_bytes: ", n.as_str(), " }")
        },
        ProtocolError::RequestTimeout => String::from_str("RequestTimeout"),
        ProtocolError::ServerBusy => String::from_str("ServerBusy"),
        ProtocolError::InvalidTaskTitle { rule } => {
            let name = match rule {
                TaskTitleRule::Empty => "Empty",
                TaskTitleRule::UnsafeCharacter => "UnsafeCharacter",
                TaskTitleRule::TooLong => "TooLong",
                TaskTitleRule::TooWide => "TooWide",
            };
            concat3("InvalidTaskTitle { rule: ", name, " }")
        },
        ProtocolError::DurableWriteUnavailable { message } => {
            let quoted = debug_string(message.as_str());
            concat3("DurableWriteUnavailable { message: ", quoted.as_str(), " }")
        },
    }
}

/// How a response is shown.
#[derive(Clone, Debug, PartialEq, Eq)]
pub enum Rendering {
    /// A line of text.
    Text(String),
    /// The Waybar module's fields, written as JSON.
    Waybar(WaybarStatus),
    /// The whole response, written as JSON.
    ResponseJson,
    /// The response's data, written as JSON.
    DataJson,
}

/// How a response is shown: as JSON when asked, as Waybar fields for the
/// `waybar` command, else as text; a refusal is an error with its text.
pub fn render(response: &Response, json: bool, waybar: bool) -> (shown: Result<Rendering, String>)
    ensures
        json ==> shown == Ok::<Rendering, String>(Rendering::ResponseJson),
        !json ==> match response {
            Response::Snapshot { snapshot } => if waybar {
                shown matches Ok(Rendering::Waybar(w)) && waybar_reports(w, *snapshot)
            } else {
                shown matches Ok(Rendering::Text(t)) && t@ == human_status_spec(*snapshot)
            },
            Response::Data { .. } => shown == Ok::<Rendering, String>(Rendering::DataJson),
            Response::Accepted => shown matches Ok(Rendering::Text(t)) && t@ == "accepted"@,
            Response::Error { error } => shown matches Err(t) && t@ == error_text(*error),
        },
{
    if json {
        return Ok(Rendering::ResponseJson);
    }
    match response {
        Response::Snapshot { snapshot } => if waybar {
            Ok(Rendering::Waybar(waybar_status(snapshot)))
        } else {
            Ok(Rendering::Text(human_status(snapshot)))
        },
        Response::Data { .. } => Ok(Rendering::DataJson),
        Response::Accepted => Ok(Rendering::Text(String::from_str("accepted"))),
        Response::Error { error } => Err(error_message(error)),
    }
}

} // verus!
