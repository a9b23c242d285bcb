//! Locating this program's events in a transaction's log messages.
//!
//! The runtime logs `Program <id> invoke [<depth>]` when a program starts,
//! `Program <id> success` or `Program <id> failed: ..` when it ends, and
//! `Program data: <base64>` for each event a program emits. Events are
//! attributed to the program on top of the invocation stack and identified
//! by the top-level instruction and their order within it, so that CPI
//! nesting does not change an event's identity.
use vstd::prelude::*;

use crate::events::{spec_decode_event, DecodeError, IronVaultEvent};
use crate::observer::encoding::{base64_decode, base64_standard_decoding};
use crate::observer::records::{EventId, EventIdView, ObservedEvent, ObservedEventView};
use crate::observer::text::{
    chars_of,
    contains_text,
    ends_with,
    find_from,
    first_occurrence,
    has_prefix,
    has_suffix,
    has_text,
    parse_u32,
    same_text,
    spec_parse_u32,
    starts_with,
    sub_chars,
};

verus! {

broadcast use vstd::std_specs::hash::group_hash_axioms;

/// `Program `, which begins every line about a program.
pub open spec fn program_prefix() -> Seq<char> {
    "Program "@
}

/// ` invoke [`, which separates a program from its invocation depth.
pub open spec fn invoke_marker() -> Seq<char> {
    " invoke ["@
}

/// `]`, which ends an invocation line.
pub open spec fn invoke_end() -> Seq<char> {
    "]"@
}

/// ` success`, which ends the line of a program that returned.
pub open spec fn success_suffix() -> Seq<char> {
    " success"@
}

/// ` failed:`, found in the line of a program that failed.
pub open spec fn failure_marker() -> Seq<char> {
    " failed:"@
}

/// `Program data: `, which begins the line of an emitted event.
pub open spec fn data_prefix() -> Seq<char> {
    "Program data: "@
}

/// The program and invocation depth of an invocation line
/// `Program <program> invoke [<depth>]`; the program is everything up to the
/// first ` invoke [`.
pub open spec fn spec_parse_invoke(log: Seq<char>) -> Option<(Seq<char>, u32)> {
    if !starts_with(log, program_prefix()) {
        None
    } else {
        let rest = log.subrange(program_prefix().len() as int, log.len() as int);
        match first_occurrence(rest, invoke_marker()) {
            None => None,
            Some(k) => {
                let suffix = rest.subrange(k + invoke_marker().len(), rest.len() as int);
                if !ends_with(suffix, invoke_end()) {
                    None
                } else {
                    match spec_parse_u32(suffix.subrange(0, suffix.len() - invoke_end().len())) {
                        None => None,
                        Some(depth) => Some((rest.subrange(0, k), depth)),
                    }
                }
            },
        }
    }
}

/// Reads an invocation line: the invoked program and the invocation depth.
pub fn parse_invoke(log: &str) -> (r: Option<(&str, u32)>)
    ensures
        spec_parse_invoke(log@) is None ==> r is None,
        spec_parse_invoke(log@) matches Some((program, depth)) ==> r matches Some((p, d)) && p@
            == program && d == depth,
{
    let line = chars_of(log);
    let prefix = chars_of("Program ");
    if !has_prefix(&line, &prefix) {
        return None;
    }
    let start = prefix.len();
    let rest = sub_chars(&line, start, line.len());
    let marker = chars_of(" invoke [");
    let k = match find_from(&rest, &marker, 0) {
        Some(k) => k,
        None => {
            return None;
        },
    };
    let suffix = sub_chars(&rest, k + marker.len(), rest.len());
    let end = chars_of("]");
    if !has_suffix(&suffix, &end) {
        return None;
    }
    let digits = sub_chars(&suffix, 0, suffix.len() - end.len());
    let depth = match parse_u32(&digits) {
        Some(d) => d,
        None => {
            return None;
        },
    };
    let program = log.substring_char(start, start + k);
    assert(program@ =~= rest@.subrange(0, k as int));
    Some((program, depth))
}

/// The event carried by a log line: none for a line that is not
/// `Program data: <base64>`, otherwise the decoded event or why it could not
/// be decoded.
pub open spec fn spec_decode_program_data(log: Seq<char>) -> Result<
    Option<IronVaultEvent>,
    DecodeError,
> {
    if !starts_with(log, data_prefix()) {
        Ok(None)
    } else {
        match base64_standard_decoding(log.subrange(data_prefix().len() as int, log.len() as int)) {
            None => Err(DecodeError::InvalidBase64),
            Some(bytes) => match spec_decode_event(bytes) {
                Ok(event) => Ok(Some(event)),
                Err(e) => Err(e),
            },
        }
    }
}

/// Decodes the event of a `Program data:` line; other lines carry none.
pub fn decode_program_data(log: &str) -> (r: Result<Option<IronVaultEvent>, DecodeError>)
    ensures
        r == spec_decode_program_data(log@),
{
    let line = chars_of(log);
    let prefix = chars_of("Program data: ");
    if !has_prefix(&line, &prefix) {
        return Ok(None);
    }
    let encoded = log.substring_char(prefix.len(), line.len());
    match base64_decode(encoded) {
        None => Err(DecodeError::InvalidBase64),
        Some(bytes) => match IronVaultEvent::decode(bytes.as_slice()) {
            Ok(event) => Ok(Some(event)),
            Err(e) => Err(e),
        },
    }
}

/// The progress of a scan through a transaction's logs.
pub struct ScanState {
    /// Programs currently executing, innermost last.
    pub stack: Seq<Seq<char>>,
    /// Index of the current top-level instruction; -1 before the first.
    pub instruction_index: int,
    /// Events already found per top-level instruction.
    pub counts: Map<u32, u32>,
    /// What was found so far, in log order.
    pub items: Seq<Result<ObservedEventView, DecodeError>>,
}

/// Where a scan starts.
pub open spec fn initial_scan() -> ScanState {
    ScanState {
        stack: Seq::empty(),
        instruction_index: -1,
        counts: Map::empty(),
        items: Seq::empty(),
    }
}

/// What an event line of this program yields at the given identity.
pub open spec fn observed_item(
    id: EventIdView,
    slot: u64,
    block_time: Option<i64>,
    log: Seq<char>,
) -> Result<ObservedEventView, DecodeError> {
    match spec_decode_program_data(log) {
        Ok(Some(event)) => Ok(ObservedEventView { id, slot, block_time, event }),
        Ok(None) => Err(DecodeError::MissingEvent),
        Err(e) => Err(e),
    }
}

/// Whether a line reports that a program finished, successfully or not.
pub open spec fn is_completion(log: Seq<char>) -> bool {
    starts_with(log, program_prefix()) && (ends_with(log, success_suffix()) || contains_text(
        log,
        failure_marker(),
    ))
}

/// The top-level instruction that an event line belongs to.
pub open spec fn event_instruction(st: ScanState) -> u32 {
    if st.instruction_index < 0 {
        0
    } else {
        st.instruction_index as u32
    }
}

/// One line of the scan: an invocation enters a program (a depth-1
/// invocation starts the next top-level instruction); a completion leaves
/// the innermost program; an event line of this program, while it is the
/// innermost one, yields an event at the next index of its instruction.
pub open spec fn scan_step(
    st: ScanState,
    log: Seq<char>,
    signature: Seq<char>,
    slot: u64,
    block_time: Option<i64>,
    program_id: Seq<char>,
) -> ScanState {
    match spec_parse_invoke(log) {
        Some((program, depth)) => if depth == 1 {
            ScanState {
                stack: seq![program],
                instruction_index: st.instruction_index + 1,
                ..st
            }
        } else {
            ScanState { stack: st.stack.push(program), ..st }
        },
        None => if is_completion(log) {
            ScanState {
                stack: if st.stack.len() == 0 {
                    st.stack
                } else {
                    st.stack.drop_last()
                },
                ..st
            }
        } else if st.stack.len() > 0 && st.stack.last() == program_id && starts_with(
            log,
            data_prefix(),
        ) {
            let index = event_instruction(st);
            let n: u32 = if st.counts.contains_key(index) {
                st.counts[index]
            } else {
                0
            };
            let id = EventIdView {
                transaction_signature: signature,
                instruction_index: index,
                event_index: n,
            };
            ScanState {
                counts: st.counts.insert(index, (n + 1) as u32),
                items: st.items.push(observed_item(id, slot, block_time, log)),
                ..st
            }
        } else {
            st
        },
    }
}

/// The scan after the given lines.
pub open spec fn scan_logs(
    logs: Seq<Seq<char>>,
    signature: Seq<char>,
    slot: u64,
    block_time: Option<i64>,
    program_id: Seq<char>,
) -> ScanState
    decreases logs.len(),
{
    if logs.len() == 0 {
        initial_scan()
    } else {
        scan_step(
            scan_logs(logs.drop_last(), signature, slot, block_time, program_id),
            logs.last(),
            signature,
            slot,
            block_time,
            program_id,
        )
    }
}

/// The text of each log line.
pub open spec fn log_texts(logs: Seq<String>) -> Seq<Seq<char>> {
    logs.map_values(|l: String| l@)
}

/// The value of one extracted item.
pub open spec fn item_view(item: Result<ObservedEvent, DecodeError>) -> Result<
    ObservedEventView,
    DecodeError,
> {
    match item {
        Ok(observed) => Ok(observed@),
        Err(e) => Err(e),
    }
}

/// Every event this program emitted in a transaction's logs, in order,
/// each with its identity, or the reason it could not be decoded.
pub open spec fn spec_extract_events(
    signature: Seq<char>,
    slot: u64,
    block_time: Option<i64>,
    logs: Seq<Seq<char>>,
    program_id: Seq<char>,
) -> Seq<Result<ObservedEventView, DecodeError>> {
    scan_logs(logs, signature, slot, block_time, program_id).items
}

/// Bounds that hold at every point of a scan of `n` lines.
pub open spec fn scan_bounded(st: ScanState, n: int) -> bool {
    &&& -1 <= st.instruction_index < n
    &&& forall|k: u32| #[trigger] st.counts.contains_key(k) ==> st.counts[k] <= n
}

proof fn lemma_scan_bounded(
    logs: Seq<Seq<char>>,
    signature: Seq<char>,
    slot: u64,
    block_time: Option<i64>,
    program_id: Seq<char>,
)
    ensures
        scan_bounded(scan_logs(logs, signature, slot, block_time, program_id), logs.len() as int),
    decreases logs.len(),
{
    if logs.len() > 0 {
        lemma_scan_bounded(logs.drop_last(), signature, slot, block_time, program_id);
    }
}

/// Extracts this program's events from a transaction's log messages.
pub fn extract_events(
    signature: &str,
    slot: u64,
    block_time: Option<i64>,
    logs: &[String],
    program_id: &str,
) -> (out: Vec<Result<ObservedEvent, DecodeError>>)
    requires
        logs@.len() < i32::MAX,
    ensures
        out@.len() == spec_extract_events(
            signature@,
            slot,
            block_time,
            log_texts(logs@),
            program_id@,
        ).len(),
        forall|j: int|
            0 <= j < out@.len() ==> item_view(#[trigger] out@[j]) == spec_extract_events(
                signature@,
                slot,
                block_time,
                log_texts(logs@),
                program_id@,
            )[j],
{
    let ghost texts = log_texts(logs@);
    let program = chars_of(program_id);
    let prefix = chars_of("Program ");
    let success = chars_of(" success");
    let failure = chars_of(" failed:");
    let data = chars_of("Program data: ");
    let mut stack: Vec<Vec<char>> = Vec::new();
    let mut instruction_index: i32 = -1;
    let mut event_indexes: std::collections::HashMap<u32, u32> = std::collections::HashMap::new();
    let mut output: Vec<Result<ObservedEvent, DecodeError>> = Vec::new();
    let mut i: usize = 0;
    while i < logs.len()
        invariant
            texts == log_texts(logs@),
            logs@.len() < i32::MAX,
            i <= logs@.len(),
            program@ == program_id@,
            prefix@ == program_prefix(),
            success@ == success_suffix(),
            failure@ == failure_marker(),
            data@ == data_prefix(),
            ({
                let st = scan_logs(texts.take(i as int), signature@, slot, block_time, program_id@);
                &&& stack@.map_values(|p: Vec<char>| p@) == st.stack
                &&& instruction_index == st.instruction_index
                &&& event_indexes@ == st.counts
                &&& output@.len() == st.items.len()
                &&& forall|j: int|
                    0 <= j < output@.len() ==> item_view(#[trigger] output@[j]) == st.items[j]
                &&& scan_bounded(st, i as int)
            }),
        decreases logs.len() - i,
    {
        let ghost before = scan_logs(texts.take(i as int), signature@, slot, block_time, program_id@);
        proof {
            assert(texts.take(i + 1).drop_last() =~= texts.take(i as int));
            lemma_scan_bounded(texts.take(i + 1), signature@, slot, block_time, program_id@);
        }
        let ghost after = scan_logs(texts.take(i + 1), signature@, slot, block_time, program_id@);
        let log = logs[i].as_str();
        assert(log@ == texts.take(i + 1).last());
        assert(after == scan_step(before, log@, signature@, slot, block_time, program_id@));
        let line = chars_of(log);
        match parse_invoke(log) {
            Some((invoked, depth)) => {
                if depth == 1 {
                    instruction_index = instruction_index + 1;
                    stack = Vec::new();
                }
                stack.push(chars_of(invoked));
                assert(stack@.map_values(|p: Vec<char>| p@) =~= after.stack);
            },
            None => {
                if has_prefix(&line, &prefix) && (has_suffix(&line, &success) || has_text(
                    &line,
                    &failure,
                )) {
                    stack.pop();
                    assert(stack@.map_values(|p: Vec<char>| p@) =~= after.stack);
                } else if stack.len() > 0 && same_text(&stack[stack.len() - 1], &program)
                    && has_prefix(&line, &data) {
                    let index: u32 = if instruction_index < 0 {
                        0
                    } else {
                        instruction_index as u32
                    };
                    let n: u32 = match event_indexes.get(&index) {
                        Some(count) => *count,
                        None => 0,
                    };
                    event_indexes.insert(index, n + 1);
                    let id = EventId {
                        transaction_signature: signature.to_owned(),
                        instruction_index: index,
                        event_index: n,
                    };
                    let item = match decode_program_data(log) {
                        Ok(Some(event)) => Ok(ObservedEvent { id, slot, block_time, event }),
                        Ok(None) => Err(DecodeError::MissingEvent),
                        Err(e) => Err(e),
                    };
                    output.push(item);
                }
            },
        }
        i = i + 1;
    }
    assert(texts.take(logs@.len() as int) =~= texts);
    output
}

/// A `Program data:` line that is neither an invocation nor a completion
/// line.
pub open spec fn is_data_line(log: Seq<char>) -> bool {
    &&& spec_parse_invoke(log) is None
    &&& !is_completion(log)
    &&& starts_with(log, data_prefix())
}

/// Whether `log`, read in scan state `st`, is an event line of the program: a
/// data line logged while the program is the innermost invocation.
pub open spec fn is_event_line(st: ScanState, log: Seq<char>, program_id: Seq<char>) -> bool {
    &&& is_data_line(log)
    &&& st.stack.len() > 0
    &&& st.stack.last() == program_id
}

/// How many events the scan has numbered in top-level instruction `index`.
pub open spec fn event_count(st: ScanState, index: u32) -> u32 {
    if st.counts.contains_key(index) {
        st.counts[index]
    } else {
        0
    }
}

/// The number of depth-1 invocation lines, each of which starts a top-level
/// instruction.
pub open spec fn top_level_invocations(logs: Seq<Seq<char>>) -> int
    decreases logs.len(),
{
    if logs.len() == 0 {
        0
    } else {
        let step: int = match spec_parse_invoke(logs.last()) {
            Some((_, depth)) => if depth == 1 {
                1
            } else {
                0
            },
            None => 0,
        };
        top_level_invocations(logs.drop_last()) + step
    }
}

/// The top-level instruction that the given lines lead into: the number of
/// depth-1 invocations among them less one, or 0 before the first.
pub open spec fn top_level_instruction(logs: Seq<Seq<char>>) -> u32 {
    let n = top_level_invocations(logs);
    if n <= 0 {
        0
    } else {
        (n - 1) as u32
    }
}

/// The event lines of a scan, in log order, each as its line, its top-level
/// instruction and its number within that instruction.
pub open spec fn event_slots(
    logs: Seq<Seq<char>>,
    signature: Seq<char>,
    slot: u64,
    block_time: Option<i64>,
    program_id: Seq<char>,
) -> Seq<(int, u32, u32)>
    decreases logs.len(),
{
    if logs.len() == 0 {
        Seq::empty()
    } else {
        let earlier = event_slots(logs.drop_last(), signature, slot, block_time, program_id);
        let st = scan_logs(logs.drop_last(), signature, slot, block_time, program_id);
        if is_event_line(st, logs.last(), program_id) {
            earlier.push(
                (
                    logs.len() - 1,
                    event_instruction(st),
                    event_count(st, event_instruction(st)),
                ),
            )
        } else {
            earlier
        }
    }
}

/// How many of the slots fall in top-level instruction `index`.
pub open spec fn count_in(slots: Seq<(int, u32, u32)>, index: u32) -> nat
    decreases slots.len(),
{
    if slots.len() == 0 {
        0
    } else {
        count_in(slots.drop_last(), index) + if slots.last().1 == index {
            1nat
        } else {
            0nat
        }
    }
}

/// The identity of the event in a slot.
pub open spec fn slot_id(signature: Seq<char>, s: (int, u32, u32)) -> EventIdView {
    EventIdView { transaction_signature: signature, instruction_index: s.1, event_index: s.2 }
}

/// What the `k`-th slot stands for: an event line of the program, whose
/// instruction is counted from the depth-1 invocations before it, whose
/// number counts the earlier events of that instruction from 0, and whose
/// item is that line's event (or decoding error) under that identity.
pub open spec fn slot_holds(
    logs: Seq<Seq<char>>,
    slots: Seq<(int, u32, u32)>,
    items: Seq<Result<ObservedEventView, DecodeError>>,
    k: int,
    signature: Seq<char>,
    slot: u64,
    block_time: Option<i64>,
    program_id: Seq<char>,
) -> bool {
    let s = slots[k];
    &&& 0 <= s.0 < logs.len()
    &&& is_event_line(
        scan_logs(logs.take(s.0), signature, slot, block_time, program_id),
        logs[s.0],
        program_id,
    )
    &&& s.1 == top_level_instruction(logs.take(s.0))
    &&& s.2 == count_in(slots.take(k), s.1)
    &&& items[k] == observed_item(slot_id(signature, s), slot, block_time, logs[s.0])
}

proof fn lemma_count_in_bound(slots: Seq<(int, u32, u32)>, index: u32)
    ensures
        count_in(slots, index) <= slots.len(),
    decreases slots.len(),
{
    if slots.len() > 0 {
        lemma_count_in_bound(slots.drop_last(), index);
    }
}

proof fn lemma_count_in_push(slots: Seq<(int, u32, u32)>, s: (int, u32, u32), index: u32)
    ensures
        count_in(slots.push(s), index) == count_in(slots, index) + if s.1 == index {
            1nat
        } else {
            0nat
        },
{
    assert(slots.push(s).drop_last() =~= slots);
}

/// The count over a longer prefix is at least the count over a shorter one
/// plus the slot between them.
proof fn lemma_count_in_grows(slots: Seq<(int, u32, u32)>, j: int, k: int, index: u32)
    requires
        0 <= j < k <= slots.len(),
    ensures
        count_in(slots.take(k), index) >= count_in(slots.take(j), index) + if slots[j].1
            == index {
            1nat
        } else {
            0nat
        },
    decreases k - j,
{
    assert(slots.take(j + 1).drop_last() =~= slots.take(j));
    if k > j + 1 {
        lemma_count_in_grows(slots, j, k - 1, index);
        assert(slots.take(k).drop_last() =~= slots.take(k - 1));
    }
}

/// The facts behind the identity law, by induction over the lines.
#[verifier::rlimit(50)]
proof fn lemma_scan_slots(
    logs: Seq<Seq<char>>,
    signature: Seq<char>,
    slot: u64,
    block_time: Option<i64>,
    program_id: Seq<char>,
)
    requires
        logs.len() < i32::MAX,
    ensures
        ({
            let st = scan_logs(logs, signature, slot, block_time, program_id);
            let slots = event_slots(logs, signature, slot, block_time, program_id);
            &&& st.instruction_index == top_level_invocations(logs) - 1
            &&& 0 <= top_level_invocations(logs) <= logs.len()
            &&& slots.len() == st.items.len()
            &&& slots.len() <= logs.len()
            &&& forall|x: u32| #[trigger] event_count(st, x) == count_in(slots, x)
            &&& forall|k: int| 0 <= k < slots.len() ==> #[trigger] slots[k].1 <= event_instruction(st)
            &&& forall|k: int|
                0 <= k < slots.len() ==> #[trigger] slot_holds(
                    logs,
                    slots,
                    st.items,
                    k,
                    signature,
                    slot,
                    block_time,
                    program_id,
                )
            &&& forall|j: int, k: int|
                0 <= j < k < slots.len() ==> #[trigger] slots[j].0 < #[trigger] slots[k].0
            &&& forall|i: int|
                0 <= i < logs.len() && #[trigger] is_event_line(
                    scan_logs(logs.take(i), signature, slot, block_time, program_id),
                    logs[i],
                    program_id,
                ) ==> exists|k: int| 0 <= k < slots.len() && slots[k].0 == i
        }),
    decreases logs.len(),
{
    if logs.len() == 0 {
        return;
    }
    let prev = logs.drop_last();
    let last = logs.last();
    lemma_scan_slots(prev, signature, slot, block_time, program_id);
    let st0 = scan_logs(prev, signature, slot, block_time, program_id);
    let st1 = scan_logs(logs, signature, slot, block_time, program_id);
    let slots0 = event_slots(prev, signature, slot, block_time, program_id);
    let slots1 = event_slots(logs, signature, slot, block_time, program_id);
    assert(st1 == scan_step(st0, last, signature, slot, block_time, program_id));
    let ei = event_instruction(st0);
    let n = event_count(st0, ei);
    let event = is_event_line(st0, last, program_id);
    lemma_count_in_bound(slots0, ei);
    assert(logs.take(prev.len() as int) =~= prev);
    if event {
        assert(n == count_in(slots0, ei));
        assert(st1.counts == st0.counts.insert(ei, (n + 1) as u32));
        assert(slots1 == slots0.push((prev.len() as int, ei, n)));
        assert forall|x: u32| #[trigger] event_count(st1, x) == count_in(slots1, x) by {
            lemma_count_in_push(slots0, (prev.len() as int, ei, n), x);
            assert(event_count(st0, x) == count_in(slots0, x));
        }
        assert(slots1.take(slots0.len() as int) =~= slots0);
    } else {
        assert(slots1 == slots0);
        assert(st1.counts == st0.counts);
        assert(st1.items == st0.items);
        assert forall|x: u32| #[trigger] event_count(st1, x) == count_in(slots1, x) by {
            assert(event_count(st0, x) == count_in(slots0, x));
        }
    }
    assert(st1.instruction_index == top_level_invocations(logs) - 1);
    assert(st1.instruction_index >= st0.instruction_index);
    assert(st1.instruction_index < i32::MAX);
    assert(event_instruction(st0) <= event_instruction(st1));
    assert forall|k: int| 0 <= k < slots1.len() implies #[trigger] slots1[k].1 <= event_instruction(
        st1,
    ) by {
        if k < slots0.len() {
            assert(slots1[k] == slots0[k]);
            assert(slots0[k].1 <= event_instruction(st0));
        }
    }
    assert forall|k: int| 0 <= k < slots1.len() implies #[trigger] slot_holds(
        logs,
        slots1,
        st1.items,
        k,
        signature,
        slot,
        block_time,
        program_id,
    ) by {
        if k < slots0.len() {
            assert(slot_holds(prev, slots0, st0.items, k, signature, slot, block_time, program_id));
            let s = slots0[k];
            assert(slots1[k] == s);
            assert(logs.take(s.0) =~= prev.take(s.0));
            assert(slots1.take(k) =~= slots0.take(k));
            assert(st1.items[k] == st0.items[k]);
        } else {
            assert(slots1.take(k) =~= slots0);
        }
    }
    assert forall|j: int, k: int| 0 <= j < k < slots1.len() implies #[trigger] slots1[j].0
        < #[trigger] slots1[k].0 by {
        if k < slots0.len() {
            assert(slots1[j] == slots0[j] && slots1[k] == slots0[k]);
        } else {
            assert(slot_holds(prev, slots0, st0.items, j, signature, slot, block_time, program_id));
        }
    }
    assert forall|i: int|
        0 <= i < logs.len() && #[trigger] is_event_line(
            scan_logs(logs.take(i), signature, slot, block_time, program_id),
            logs[i],
            program_id,
        ) implies exists|k: int| 0 <= k < slots1.len() && slots1[k].0 == i by {
        if i < prev.len() {
            assert(logs.take(i) =~= prev.take(i));
            assert(is_event_line(
                scan_logs(prev.take(i), signature, slot, block_time, program_id),
                prev[i],
                program_id,
            ));
            let k = choose|k: int| 0 <= k < slots0.len() && slots0[k].0 == i;
            assert(slots1[k] == slots0[k]);
        } else {
            assert(slots1[slots0.len() as int].0 == i);
        }
    }
}

/// Law: events are identified as the observer promises. Each event line of
/// the program (a `Program data:` line logged while the program is the
/// innermost invocation) yields exactly one item, in log order. The item of a
/// line carries the transaction signature, slot and block time, the
/// top-level instruction counted from the depth-1 invocations before the
/// line, and a number that restarts at 0 for each top-level instruction and
/// counts up by one; so no two items share an identity, whether CPIs nest or
/// not.
pub proof fn lemma_event_identities(
    signature: Seq<char>,
    slot: u64,
    block_time: Option<i64>,
    logs: Seq<Seq<char>>,
    program_id: Seq<char>,
)
    requires
        logs.len() < i32::MAX,
    ensures
        ({
            let items = spec_extract_events(signature, slot, block_time, logs, program_id);
            let slots = event_slots(logs, signature, slot, block_time, program_id);
            &&& items.len() == slots.len()
            &&& forall|k: int|
                0 <= k < slots.len() ==> #[trigger] slot_holds(
                    logs,
                    slots,
                    items,
                    k,
                    signature,
                    slot,
                    block_time,
                    program_id,
                )
            &&& forall|i: int|
                0 <= i < logs.len() && #[trigger] is_event_line(
                    scan_logs(logs.take(i), signature, slot, block_time, program_id),
                    logs[i],
                    program_id,
                ) ==> exists|k: int| 0 <= k < slots.len() && slots[k].0 == i
            &&& forall|j: int, k: int|
                0 <= j < k < slots.len() ==> {
                    &&& #[trigger] slots[j].0 < #[trigger] slots[k].0
                    &&& slots[j].1 <= slots[k].1
                    &&& slots[j].1 == slots[k].1 ==> slots[j].2 < slots[k].2
                    &&& slot_id(signature, slots[j]) != slot_id(signature, slots[k])
                }
            &&& forall|k: int|
                0 <= k < items.len() && #[trigger] items[k] is Ok ==> {
                    &&& items[k]->Ok_0.id == slot_id(signature, slots[k])
                    &&& items[k]->Ok_0.slot == slot
                    &&& items[k]->Ok_0.block_time == block_time
                }
        }),
{
    lemma_scan_slots(logs, signature, slot, block_time, program_id);
    let st = scan_logs(logs, signature, slot, block_time, program_id);
    let slots = event_slots(logs, signature, slot, block_time, program_id);
    assert forall|j: int, k: int| 0 <= j < k < slots.len() implies {
        &&& #[trigger] slots[j].0 < #[trigger] slots[k].0
        &&& slots[j].1 <= slots[k].1
        &&& slots[j].1 == slots[k].1 ==> slots[j].2 < slots[k].2
        &&& slot_id(signature, slots[j]) != slot_id(signature, slots[k])
    } by {
        assert(slot_holds(logs, slots, st.items, j, signature, slot, block_time, program_id));
        assert(slot_holds(logs, slots, st.items, k, signature, slot, block_time, program_id));
        lemma_instruction_grows(logs, slots[j].0, slots[k].0);
        if slots[j].1 == slots[k].1 {
            lemma_count_in_grows(slots, j, k, slots[k].1);
        }
    }
    assert forall|k: int| 0 <= k < st.items.len() && #[trigger] st.items[k] is Ok implies {
        &&& st.items[k]->Ok_0.id == slot_id(signature, slots[k])
        &&& st.items[k]->Ok_0.slot == slot
        &&& st.items[k]->Ok_0.block_time == block_time
    } by {
        assert(slot_holds(logs, slots, st.items, k, signature, slot, block_time, program_id));
    }
}

/// The top-level instruction of a longer prefix is at least that of a
/// shorter one.
proof fn lemma_instruction_grows(logs: Seq<Seq<char>>, a: int, b: int)
    requires
        0 <= a <= b <= logs.len(),
        logs.len() < i32::MAX,
    ensures
        top_level_instruction(logs.take(a)) <= top_level_instruction(logs.take(b)),
    decreases b - a,
{
    lemma_invocations_bound(logs.take(b));
    if b > a {
        lemma_instruction_grows(logs, a, b - 1);
        assert(logs.take(b).drop_last() =~= logs.take(b - 1));
        lemma_invocations_bound(logs.take(b - 1));
    }
}

proof fn lemma_invocations_bound(logs: Seq<Seq<char>>)
    ensures
        0 <= top_level_invocations(logs) <= logs.len(),
    decreases logs.len(),
{
    if logs.len() > 0 {
        lemma_invocations_bound(logs.drop_last());
    }
}

/// Two log lists that differ only in data lines.
pub open spec fn same_shape(a: Seq<Seq<char>>, b: Seq<Seq<char>>) -> bool {
    &&& a.len() == b.len()
    &&& forall|i: int|
        0 <= i < a.len() ==> #[trigger] a[i] == b[i] || (is_data_line(a[i]) && is_data_line(b[i]))
}

/// Lists that differ only in data lines scan alike: the same invocation
/// stack, instructions, counts and event slots.
proof fn lemma_same_shape_scan(
    a: Seq<Seq<char>>,
    b: Seq<Seq<char>>,
    signature: Seq<char>,
    slot: u64,
    block_time: Option<i64>,
    program_id: Seq<char>,
)
    requires
        same_shape(a, b),
    ensures
        ({
            let sa = scan_logs(a, signature, slot, block_time, program_id);
            let sb = scan_logs(b, signature, slot, block_time, program_id);
            &&& sa.stack == sb.stack
            &&& sa.instruction_index == sb.instruction_index
            &&& sa.counts == sb.counts
            &&& sa.items.len() == sb.items.len()
            &&& event_slots(a, signature, slot, block_time, program_id) == event_slots(
                b,
                signature,
                slot,
                block_time,
                program_id,
            )
        }),
    decreases a.len(),
{
    if a.len() > 0 {
        assert(same_shape(a.drop_last(), b.drop_last())) by {
            assert forall|i: int| 0 <= i < a.len() - 1 implies #[trigger] a.drop_last()[i]
                == b.drop_last()[i] || (is_data_line(a.drop_last()[i]) && is_data_line(
                b.drop_last()[i],
            )) by {
                assert(a[i] == b[i] || (is_data_line(a[i]) && is_data_line(b[i])));
            }
        }
        lemma_same_shape_scan(a.drop_last(), b.drop_last(), signature, slot, block_time, program_id);
        assert(a[a.len() - 1] == b[b.len() - 1] || (is_data_line(a.last()) && is_data_line(b.last())));
    }
}

/// Law: a `Program data:` line that cannot be decoded costs only its own
/// item. Against the same logs with that line replaced by a valid event line,
/// the event slots are the same; the bad line's item, where the program was
/// the innermost invocation, is its decoding error at the line's own place,
/// its event number used up as the valid line would use it; and every other
/// item is unchanged.
pub proof fn lemma_bad_event_line_is_isolated(
    signature: Seq<char>,
    slot: u64,
    block_time: Option<i64>,
    logs: Seq<Seq<char>>,
    p: int,
    valid: Seq<char>,
    program_id: Seq<char>,
)
    requires
        logs.len() < i32::MAX,
        0 <= p < logs.len(),
        is_data_line(logs[p]),
        is_data_line(valid),
        spec_decode_program_data(logs[p]) is Err,
        spec_decode_program_data(valid) matches Ok(Some(_)),
    ensures
        ({
            let fixed = logs.update(p, valid);
            let items = spec_extract_events(signature, slot, block_time, logs, program_id);
            let fixed_items = spec_extract_events(signature, slot, block_time, fixed, program_id);
            let slots = event_slots(logs, signature, slot, block_time, program_id);
            &&& event_slots(fixed, signature, slot, block_time, program_id) == slots
            &&& fixed_items.len() == items.len()
            &&& forall|k: int|
                0 <= k < items.len() && slots[k].0 != p ==> #[trigger] items[k] == fixed_items[k]
            &&& forall|k: int|
                0 <= k < items.len() && #[trigger] slots[k].0 == p ==> {
                    &&& items[k] == Err::<ObservedEventView, DecodeError>(
                        spec_decode_program_data(logs[p])->Err_0,
                    )
                    &&& fixed_items[k] == Ok::<ObservedEventView, DecodeError>(
                        ObservedEventView {
                            id: slot_id(signature, slots[k]),
                            slot,
                            block_time,
                            event: spec_decode_program_data(valid)->Ok_0->Some_0,
                        },
                    )
                }
            &&& is_event_line(
                scan_logs(logs.take(p), signature, slot, block_time, program_id),
                logs[p],
                program_id,
            ) ==> exists|k: int| 0 <= k < items.len() && slots[k].0 == p
        }),
{
    let fixed = logs.update(p, valid);
    assert(same_shape(logs, fixed)) by {
        assert forall|i: int| 0 <= i < logs.len() implies #[trigger] logs[i] == fixed[i] || (
        is_data_line(logs[i]) && is_data_line(fixed[i])) by {
            if i == p {
                assert(fixed[i] == valid);
            }
        }
    }
    lemma_same_shape_scan(logs, fixed, signature, slot, block_time, program_id);
    lemma_event_identities(signature, slot, block_time, logs, program_id);
    lemma_event_identities(signature, slot, block_time, fixed, program_id);
    let items = spec_extract_events(signature, slot, block_time, logs, program_id);
    let fixed_items = spec_extract_events(signature, slot, block_time, fixed, program_id);
    let slots = event_slots(logs, signature, slot, block_time, program_id);
    assert forall|k: int| 0 <= k < items.len() && slots[k].0 != p implies #[trigger] items[k]
        == fixed_items[k] by {
        assert(slot_holds(logs, slots, items, k, signature, slot, block_time, program_id));
        assert(slot_holds(fixed, slots, fixed_items, k, signature, slot, block_time, program_id));
    }
    assert forall|k: int| 0 <= k < items.len() && #[trigger] slots[k].0 == p implies {
        &&& items[k] == Err::<ObservedEventView, DecodeError>(
            spec_decode_program_data(logs[p])->Err_0,
        )
        &&& fixed_items[k] == Ok::<ObservedEventView, DecodeError>(
            ObservedEventView {
                id: slot_id(signature, slots[k]),
                slot,
                block_time,
                event: spec_decode_program_data(valid)->Ok_0->Some_0,
            },
        )
    } by {
        assert(slot_holds(logs, slots, items, k, signature, slot, block_time, program_id));
        assert(slot_holds(fixed, slots, fixed_items, k, signature, slot, block_time, program_id));
    }
}

} // verus!
