//! The stack-machine bytecode interpreter: consumes one action tag's
//! instruction stream and reconstructs the note records it encodes.
//!
//! An action stream is a sequence of records: a one-byte opcode, and, for
//! opcodes of `0x80` and above, a little-endian two-byte payload length
//! followed by the payload. The interpreter keeps an operand stack and an
//! optional constant (string) pool:
//!
//! - a constant-pool record (`0x88`) loads the string table and gates
//!   further processing on the presence of the chart marker string;
//! - a push record (`0x96`) pushes its typed literal values;
//! - an init-array record (`0x42`) pops an item count and builds one note
//!   record from the popped fields;
//! - an end record (`0x00`) terminates interpretation;
//! - every other opcode is ignored.

use vstd::prelude::*;

use crate::note::{Color, RuntimeNote};
use crate::types::Direction;

verus! {

/// A value on the interpreter's operand stack. Values the chart logic never
/// reads (strings, floats, booleans, registers, null, undefined) are kept
/// only as `Other`.
#[derive(Clone, Copy, PartialEq, Eq, Debug, Structural)]
pub enum StackValue {
    /// A signed integer literal.
    Int(i32),
    /// An index into the constant pool.
    PoolRef(u16),
    /// Any value the chart logic never reads.
    Other,
}

/// Why extraction of one action tag failed. Each failure aborts the current
/// tag only, never the whole parse.
#[derive(Clone, Copy, PartialEq, Eq, Debug, Structural)]
pub enum ChartParseError {
    /// The operand below an item count was not numeric.
    BeatPosition,
    /// The direction operand did not resolve to one of `L`, `U`, `D`, `R`.
    NoteDirection,
    /// The colour operand did not resolve to one of the nine colour names.
    NoteColor,
    /// The explicit timestamp operand was not numeric.
    Timestamp,
    /// The item count operand of an init-array record was not numeric.
    InitCount,
    /// The tag yielded zero note records.
    NotChartData,
}

/// The little-endian 16-bit value at position `i`.
pub open spec fn u16_le(d: Seq<u8>, i: int) -> int {
    d[i] + 0x100 * d[i + 1]
}

/// The little-endian 32-bit value at position `i`.
pub open spec fn u32_le(d: Seq<u8>, i: int) -> int {
    d[i] + 0x100 * d[i + 1] + 0x10000 * d[i + 2] + 0x1000000 * d[i + 3]
}

/// The two's-complement reading of an unsigned 32-bit value.
pub open spec fn i32_of_u32(u: int) -> int {
    if u < 0x80000000 {
        u
    } else {
        u - 0x100000000
    }
}

/// The unsigned magnitude of a signed integer operand.
pub open spec fn abs_u32(v: i32) -> u32 {
    if v >= 0 {
        v as u32
    } else {
        ((-(v as int)) as u32)
    }
}

/// The timestamp derived from a beat position when the source record omits
/// it: `beat / 30 * 1000` in wrapping 32-bit arithmetic.
pub open spec fn derived_ts(beat: u32) -> u32 {
    (((beat as int) / 30 * 1000) % 0x100000000) as u32
}

/// The position of the first zero byte at or after `j`, or the length of `d`
/// if there is none.
pub open spec fn null_pos(d: Seq<u8>, j: int) -> int
    decreases d.len() - j,
{
    if j < 0 || j >= d.len() {
        d.len() as int
    } else if d[j] == 0 {
        j
    } else {
        null_pos(d, j + 1)
    }
}

/// `null_pos` never moves backward and never leaves the sequence.
pub proof fn lemma_null_pos_bounds(d: Seq<u8>, j: int)
    requires
        0 <= j <= d.len(),
    ensures
        j <= null_pos(d, j) <= d.len(),
        null_pos(d, j) < d.len() ==> d[null_pos(d, j)] == 0,
    decreases d.len() - j,
{
    if j < d.len() && d[j] != 0 {
        lemma_null_pos_bounds(d, j + 1);
    }
}

/// The string table of a constant-pool payload: the declared number of
/// zero-terminated strings, read in order; reading stops early if the
/// payload runs out.
pub open spec fn pool_strings(d: Seq<u8>, j: int, remaining: int, acc: Seq<Seq<u8>>) -> Seq<
    Seq<u8>,
>
    decreases remaining,
{
    if remaining <= 0 || j < 0 || j > d.len() {
        acc
    } else {
        let p = null_pos(d, j);
        if p >= d.len() {
            acc
        } else {
            pool_strings(d, p + 1, remaining - 1, acc.push(d.subrange(j, p)))
        }
    }
}

/// The constant pool parsed from a payload: its string table, or nothing if
/// the payload cannot hold the string count.
pub open spec fn parse_pool(d: Seq<u8>) -> Option<Seq<Seq<u8>>> {
    if d.len() < 2 {
        None
    } else {
        Some(pool_strings(d, 2, u16_le(d, 0), Seq::empty()))
    }
}

/// The bytes of the chart marker string.
pub open spec fn is_chart_marker(s: Seq<u8>) -> bool {
    s.len() == 7 && s[0] == 98 && s[1] == 101 && s[2] == 97 && s[3] == 116 && s[4] == 66 && s[5]
        == 111 && s[6] == 120
}

/// True when the string table holds the chart marker string.
pub open spec fn pool_has_marker(strs: Seq<Seq<u8>>) -> bool {
    exists|i: int| 0 <= i < strs.len() && is_chart_marker(#[trigger] strs[i])
}

/// The direction named by a pool string: one of `L`, `U`, `D`, `R`.
pub open spec fn dir_of_bytes(s: Seq<u8>) -> Option<Direction> {
    if s.len() == 1 {
        if s[0] == 76 {
            Some(Direction::Left)
        } else if s[0] == 85 {
            Some(Direction::Up)
        } else if s[0] == 68 {
            Some(Direction::Down)
        } else if s[0] == 82 {
            Some(Direction::Right)
        } else {
            None
        }
    } else {
        None
    }
}

/// The colour named by a pool string: one of the nine colour names, written
/// in lower case. The receptor sentinel has no name here.
pub open spec fn color_of_bytes(s: Seq<u8>) -> Option<Color> {
    if s.len() == 3 && s[0] == 114 && s[1] == 101 && s[2] == 100 {
        Some(Color::Red)
    } else if s.len() == 6 && s[0] == 121 && s[1] == 101 && s[2] == 108 && s[3] == 108 && s[4]
        == 111 && s[5] == 119 {
        Some(Color::Yellow)
    } else if s.len() == 4 && s[0] == 98 && s[1] == 108 && s[2] == 117 && s[3] == 101 {
        Some(Color::Blue)
    } else if s.len() == 6 && s[0] == 111 && s[1] == 114 && s[2] == 97 && s[3] == 110 && s[4]
        == 103 && s[5] == 101 {
        Some(Color::Orange)
    } else if s.len() == 5 && s[0] == 103 && s[1] == 114 && s[2] == 101 && s[3] == 101 && s[4]
        == 110 {
        Some(Color::Green)
    } else if s.len() == 4 && s[0] == 112 && s[1] == 105 && s[2] == 110 && s[3] == 107 {
        Some(Color::Pink)
    } else if s.len() == 6 && s[0] == 112 && s[1] == 117 && s[2] == 114 && s[3] == 112 && s[4]
        == 108 && s[5] == 101 {
        Some(Color::Purple)
    } else if s.len() == 4 && s[0] == 99 && s[1] == 121 && s[2] == 97 && s[3] == 110 {
        Some(Color::Cyan)
    } else if s.len() == 5 && s[0] == 119 && s[1] == 104 && s[2] == 105 && s[3] == 116 && s[4]
        == 101 {
        Some(Color::White)
    } else {
        None
    }
}

/// The values of a push payload from position `j` on, appended to `acc`, or
/// nothing if a value is truncated. Unknown value types are skipped, as the
/// player is lenient about them.
pub open spec fn parse_push(b: Seq<u8>, j: int, acc: Seq<StackValue>) -> Option<Seq<StackValue>>
    decreases b.len() - j,
    via parse_push_decreases
{
    if j < 0 {
        None
    } else if j >= b.len() {
        Some(acc)
    } else {
        let t = b[j];
        if t == 0 {
            // a zero-terminated string
            let p = null_pos(b, j + 1);
            if p >= b.len() {
                None
            } else {
                parse_push(b, p + 1, acc.push(StackValue::Other))
            }
        } else if t == 1 {
            // a 32-bit float
            if j + 5 <= b.len() {
                parse_push(b, j + 5, acc.push(StackValue::Other))
            } else {
                None
            }
        } else if t == 2 || t == 3 {
            // null / undefined
            parse_push(b, j + 1, acc.push(StackValue::Other))
        } else if t == 4 || t == 5 {
            // a register / a boolean
            if j + 2 <= b.len() {
                parse_push(b, j + 2, acc.push(StackValue::Other))
            } else {
                None
            }
        } else if t == 6 {
            // a 64-bit float
            if j + 9 <= b.len() {
                parse_push(b, j + 9, acc.push(StackValue::Other))
            } else {
                None
            }
        } else if t == 7 {
            // a signed 32-bit integer
            if j + 5 <= b.len() {
                parse_push(b, j + 5, acc.push(StackValue::Int(i32_of_u32(u32_le(b, j + 1)) as i32)))
            } else {
                None
            }
        } else if t == 8 {
            // a one-byte constant pool index
            if j + 2 <= b.len() {
                parse_push(b, j + 2, acc.push(StackValue::PoolRef(b[j + 1] as u16)))
            } else {
                None
            }
        } else if t == 9 {
            // a two-byte constant pool index
            if j + 3 <= b.len() {
                parse_push(b, j + 3, acc.push(StackValue::PoolRef(u16_le(b, j + 1) as u16)))
            } else {
                None
            }
        } else {
            parse_push(b, j + 1, acc)
        }
    }
}

#[via_fn]
proof fn parse_push_decreases(b: Seq<u8>, j: int, acc: Seq<StackValue>) {
    if 0 <= j && j < b.len() && b[j] == 0 {
        lemma_null_pos_bounds(b, j + 1);
    }
}

/// A popped numeric operand as an unsigned magnitude, with the remaining
/// stack; nothing if the stack is empty or its top is not numeric.
pub open spec fn pop_int(stack: Seq<StackValue>) -> Option<(u32, Seq<StackValue>)> {
    if stack.len() > 0 {
        match stack.last() {
            StackValue::Int(v) => Some((abs_u32(v), stack.drop_last())),
            _ => None,
        }
    } else {
        None
    }
}

/// A popped constant-pool operand resolved to its string, with the remaining
/// stack; nothing if the stack is empty, its top is no pool reference, no
/// pool is loaded, or the index is out of range.
pub open spec fn pop_pool_str(stack: Seq<StackValue>, pool: Option<Seq<Seq<u8>>>) -> Option<
    (Seq<u8>, Seq<StackValue>),
> {
    if stack.len() > 0 {
        match stack.last() {
            StackValue::PoolRef(ix) => match pool {
                Some(strs) => if ix < strs.len() {
                    Some((strs[ix as int], stack.drop_last()))
                } else {
                    None
                },
                None => None,
            },
            _ => None,
        }
    } else {
        None
    }
}

/// What one init-array record does to the interpreter.
pub ghost enum InitOutcome {
    /// Extraction of this tag fails with the given error.
    Fail(ChartParseError),
    /// The stack holds fewer items than the count asks for: chart data has
    /// ended, interpretation stops.
    Stop,
    /// One note record was built; the interpreter continues with the
    /// remaining stack and the note appended.
    Step(Seq<StackValue>, Seq<RuntimeNote>),
}

/// Builds one note record from the operand stack, `cnt` being the popped
/// item count. The direction is always popped after the beat position; the
/// colour is popped only for counts above two, and defaults to blue
/// otherwise; the timestamp is popped only for counts above three, and is
/// otherwise derived from the beat position.
pub open spec fn build_note(
    pool: Option<Seq<Seq<u8>>>,
    stack: Seq<StackValue>,
    notes: Seq<RuntimeNote>,
    cnt: int,
) -> InitOutcome {
    match pop_int(stack) {
        None => InitOutcome::Fail(ChartParseError::BeatPosition),
        Some((beat, s1)) => match pop_pool_str(s1, pool) {
            None => InitOutcome::Fail(ChartParseError::NoteDirection),
            Some((dstr, s2)) => match dir_of_bytes(dstr) {
                None => InitOutcome::Fail(ChartParseError::NoteDirection),
                Some(dir) => {
                    if cnt > 2 {
                        match pop_pool_str(s2, pool) {
                            None => InitOutcome::Fail(ChartParseError::NoteColor),
                            Some((cstr, s3)) => match color_of_bytes(cstr) {
                                None => InitOutcome::Fail(ChartParseError::NoteColor),
                                Some(color) => build_note_ts(s3, notes, cnt, beat, dir, color),
                            },
                        }
                    } else {
                        build_note_ts(s2, notes, cnt, beat, dir, Color::Blue)
                    }
                },
            },
        },
    }
}

/// Finishes one note record: pops the explicit timestamp for counts above
/// three, derives it from the beat position otherwise.
pub open spec fn build_note_ts(
    stack: Seq<StackValue>,
    notes: Seq<RuntimeNote>,
    cnt: int,
    beat: u32,
    dir: Direction,
    color: Color,
) -> InitOutcome {
    if cnt > 3 {
        match pop_int(stack) {
            None => InitOutcome::Fail(ChartParseError::Timestamp),
            Some((ts, s4)) => InitOutcome::Step(
                s4,
                notes.push(
                    RuntimeNote { beat_position: beat, color, direction: dir, timestamp: ts },
                ),
            ),
        }
    } else {
        InitOutcome::Step(
            stack,
            notes.push(
                RuntimeNote {
                    beat_position: beat,
                    color,
                    direction: dir,
                    timestamp: derived_ts(beat),
                },
            ),
        )
    }
}

/// What one init-array record does: nothing while the stack is empty (the
/// first init-array of a tag is discarded as garbage), a stop when the stack
/// holds fewer items than the popped count asks for, otherwise one note
/// record built from the popped fields.
pub open spec fn init_array_step(
    pool: Option<Seq<Seq<u8>>>,
    stack: Seq<StackValue>,
    notes: Seq<RuntimeNote>,
) -> InitOutcome {
    if stack.len() == 0 {
        InitOutcome::Step(stack, notes)
    } else {
        match stack.last() {
            StackValue::Int(cnt) => {
                let rest = stack.drop_last();
                if cnt < 0 || rest.len() < cnt {
                    InitOutcome::Stop
                } else {
                    build_note(pool, rest, notes, cnt as int)
                }
            },
            _ => InitOutcome::Fail(ChartParseError::InitCount),
        }
    }
}

/// The result once interpretation stops: the notes built, or
/// `NotChartData` if there are none.
pub open spec fn interp_finish(notes: Seq<RuntimeNote>) -> Result<
    Seq<RuntimeNote>,
    ChartParseError,
> {
    if notes.len() == 0 {
        Err(ChartParseError::NotChartData)
    } else {
        Ok(notes)
    }
}

/// The interpretation of an action stream from position `i` on. A truncated
/// record, a constant pool without the chart marker, an end record, an
/// exhausted stream and an under-filled init-array all stop interpretation;
/// a malformed operand fails the tag.
pub open spec fn interp(
    a: Seq<u8>,
    i: int,
    pool: Option<Seq<Seq<u8>>>,
    stack: Seq<StackValue>,
    notes: Seq<RuntimeNote>,
) -> Result<Seq<RuntimeNote>, ChartParseError>
    decreases a.len() - i,
{
    if i < 0 || i >= a.len() {
        interp_finish(notes)
    } else {
        let op = a[i];
        if op < 0x80 {
            if op == 0x00 {
                // End
                interp_finish(notes)
            } else if op == 0x42 {
                // InitArray
                match init_array_step(pool, stack, notes) {
                    InitOutcome::Fail(e) => Err(e),
                    InitOutcome::Stop => interp_finish(notes),
                    InitOutcome::Step(s2, n2) => interp(a, i + 1, pool, s2, n2),
                }
            } else {
                interp(a, i + 1, pool, stack, notes)
            }
        } else {
            if i + 3 > a.len() {
                interp_finish(notes)
            } else {
                let len = u16_le(a, i + 1);
                if i + 3 + len > a.len() {
                    interp_finish(notes)
                } else {
                    let body = a.subrange(i + 3, i + 3 + len);
                    let next = i + 3 + len;
                    if op == 0x88 {
                        // ConstantPool
                        match parse_pool(body) {
                            None => interp_finish(notes),
                            Some(strs) => if pool_has_marker(strs) {
                                interp(a, next, Some(strs), stack, notes)
                            } else {
                                interp_finish(notes)
                            },
                        }
                    } else if op == 0x96 {
                        // Push
                        match parse_push(body, 0, Seq::empty()) {
                            None => interp_finish(notes),
                            Some(vals) => interp(a, next, pool, stack + vals, notes),
                        }
                    } else {
                        interp(a, next, pool, stack, notes)
                    }
                }
            }
        }
    }
}

/// The extraction of one action tag: interpretation of its whole stream with
/// an empty stack, no pool, and no notes.
pub open spec fn spec_parse_action(a: Seq<u8>) -> Result<Seq<RuntimeNote>, ChartParseError> {
    interp(a, 0, None, Seq::empty(), Seq::empty())
}

/// What an init-array record builds from a two-, three- or four-field cell:
/// the colour defaults to blue only for two-field cells, and the timestamp
/// is derived as `beat / 30 * 1000` only for cells with three or fewer
/// fields; a four-field cell keeps its explicit timestamp.
pub proof fn lemma_cell_fields(
    strs: Seq<Seq<u8>>,
    s: Seq<StackValue>,
    notes: Seq<RuntimeNote>,
    di: u16,
    ci: u16,
    bv: i32,
    tv: i32,
    dir: Direction,
    color: Color,
)
    requires
        di < strs.len(),
        ci < strs.len(),
        dir_of_bytes(strs[di as int]) == Some(dir),
        color_of_bytes(strs[ci as int]) == Some(color),
    ensures
        init_array_step(
            Some(strs),
            s + seq![StackValue::PoolRef(di), StackValue::Int(bv), StackValue::Int(2i32)],
            notes,
        ) == InitOutcome::Step(
            s,
            notes.push(
                RuntimeNote {
                    beat_position: abs_u32(bv),
                    color: Color::Blue,
                    direction: dir,
                    timestamp: derived_ts(abs_u32(bv)),
                },
            ),
        ),
        init_array_step(
            Some(strs),
            s + seq![
                StackValue::PoolRef(ci),
                StackValue::PoolRef(di),
                StackValue::Int(bv),
                StackValue::Int(3i32),
            ],
            notes,
        ) == InitOutcome::Step(
            s,
            notes.push(
                RuntimeNote {
                    beat_position: abs_u32(bv),
                    color,
                    direction: dir,
                    timestamp: derived_ts(abs_u32(bv)),
                },
            ),
        ),
        init_array_step(
            Some(strs),
            s + seq![
                StackValue::Int(tv),
                StackValue::PoolRef(ci),
                StackValue::PoolRef(di),
                StackValue::Int(bv),
                StackValue::Int(4i32),
            ],
            notes,
        ) == InitOutcome::Step(
            s,
            notes.push(
                RuntimeNote {
                    beat_position: abs_u32(bv),
                    color,
                    direction: dir,
                    timestamp: abs_u32(tv),
                },
            ),
        ),
{
    let pool = Some(strs);
    // the two-field cell
    let st2 = s + seq![StackValue::PoolRef(di), StackValue::Int(bv), StackValue::Int(2i32)];
    assert(st2.drop_last() =~= s + seq![StackValue::PoolRef(di), StackValue::Int(bv)]);
    let r2 = st2.drop_last();
    assert(r2.drop_last() =~= s + seq![StackValue::PoolRef(di)]);
    assert(r2.drop_last().drop_last() =~= s);
    // the three-field cell
    let st3 = s + seq![
        StackValue::PoolRef(ci),
        StackValue::PoolRef(di),
        StackValue::Int(bv),
        StackValue::Int(3i32),
    ];
    assert(st3.drop_last() =~= s + seq![
        StackValue::PoolRef(ci),
        StackValue::PoolRef(di),
        StackValue::Int(bv),
    ]);
    let r3 = st3.drop_last();
    assert(r3.drop_last() =~= s + seq![StackValue::PoolRef(ci), StackValue::PoolRef(di)]);
    assert(r3.drop_last().drop_last() =~= s + seq![StackValue::PoolRef(ci)]);
    assert(r3.drop_last().drop_last().drop_last() =~= s);
    // the four-field cell
    let st4 = s + seq![
        StackValue::Int(tv),
        StackValue::PoolRef(ci),
        StackValue::PoolRef(di),
        StackValue::Int(bv),
        StackValue::Int(4i32),
    ];
    assert(st4.drop_last() =~= s + seq![
        StackValue::Int(tv),
        StackValue::PoolRef(ci),
        StackValue::PoolRef(di),
        StackValue::Int(bv),
    ]);
    let r4 = st4.drop_last();
    assert(r4.drop_last() =~= s + seq![
        StackValue::Int(tv),
        StackValue::PoolRef(ci),
        StackValue::PoolRef(di),
    ]);
    assert(r4.drop_last().drop_last() =~= s + seq![StackValue::Int(tv), StackValue::PoolRef(ci)]);
    assert(r4.drop_last().drop_last().drop_last() =~= s + seq![StackValue::Int(tv)]);
    assert(r4.drop_last().drop_last().drop_last().drop_last() =~= s);
}

/// The string table a loaded constant pool stands for.
pub open spec fn strs_view(p: Seq<Vec<u8>>) -> Seq<Seq<u8>> {
    p.map_values(|v: Vec<u8>| v@)
}

/// The string table an optional constant pool stands for.
pub open spec fn view_pool(p: Option<Vec<Vec<u8>>>) -> Option<Seq<Seq<u8>>> {
    match p {
        Some(v) => Some(strs_view(v@)),
        None => None,
    }
}

/// Reads the little-endian 16-bit value at position `i`.
pub(crate) fn read_u16(d: &Vec<u8>, i: usize) -> (r: u16)
    requires
        i + 2 <= d@.len(),
    ensures
        r as int == u16_le(d@, i as int),
{
    let n = d.len();
    d[i] as u16 + 0x100u16 * (d[i + 1] as u16)
}

/// Reads the little-endian 32-bit value at position `i`.
pub(crate) fn read_u32(d: &Vec<u8>, i: usize) -> (r: u32)
    requires
        i + 4 <= d@.len(),
    ensures
        r as int == u32_le(d@, i as int),
{
    let n = d.len();
    d[i] as u32 + 0x100u32 * (d[i + 1] as u32) + 0x10000u32 * (d[i + 2] as u32) + 0x1000000u32 * (d[
        i + 3
    ] as u32)
}

/// Reads the little-endian signed 32-bit value at position `i`.
fn read_i32(d: &Vec<u8>, i: usize) -> (r: i32)
    requires
        i + 4 <= d@.len(),
    ensures
        r as int == i32_of_u32(u32_le(d@, i as int)),
{
    let u = read_u32(d, i);
    let v: i64 = if u >= 0x80000000 {
        u as i64 - 0x100000000i64
    } else {
        u as i64
    };
    v as i32
}

/// The unsigned magnitude of a signed integer operand.
fn abs_of_i32(v: i32) -> (r: u32)
    ensures
        r == abs_u32(v),
{
    if v >= 0 {
        v as u32
    } else {
        (-(v as i64)) as u32
    }
}

/// Derives the timestamp from a beat position; see [`derived_ts`].
fn derive_timestamp(beat: u32) -> (r: u32)
    ensures
        r == derived_ts(beat),
{
    let q: u64 = (beat / 30) as u64 * 1000;
    (q % 0x100000000u64) as u32
}

/// Finds the first zero byte at or after `start`; see [`null_pos`].
fn find_null(d: &Vec<u8>, start: usize) -> (r: usize)
    requires
        start <= d@.len(),
    ensures
        r == null_pos(d@, start as int),
{
    let mut j = start;
    while j < d.len()
        invariant
            start <= j <= d@.len(),
            null_pos(d@, start as int) == null_pos(d@, j as int),
        decreases d@.len() - j,
    {
        if d[j] == 0 {
            return j;
        }
        proof {
            assert(null_pos(d@, j as int) == null_pos(d@, j + 1));
        }
        j = j + 1;
    }
    j
}

/// Copies the bytes of `[start, end)` into a fresh buffer.
pub(crate) fn copy_range(d: &Vec<u8>, start: usize, end: usize) -> (r: Vec<u8>)
    requires
        start <= end <= d@.len(),
    ensures
        r@ == d@.subrange(start as int, end as int),
{
    let mut out: Vec<u8> = Vec::new();
    proof {
        assert(out@ =~= d@.subrange(start as int, start as int));
    }
    let mut k = start;
    while k < end
        invariant
            start <= k <= end <= d@.len(),
            out@ == d@.subrange(start as int, k as int),
        decreases end - k,
    {
        out.push(d[k]);
        proof {
            assert(out@ =~= d@.subrange(start as int, k + 1));
        }
        k = k + 1;
    }
    out
}

/// Resolves a pool string to a direction; see [`dir_of_bytes`].
fn dir_of_vec(v: &Vec<u8>) -> (r: Option<Direction>)
    ensures
        r == dir_of_bytes(v@),
{
    if v.len() == 1 {
        if v[0] == 76 {
            Some(Direction::Left)
        } else if v[0] == 85 {
            Some(Direction::Up)
        } else if v[0] == 68 {
            Some(Direction::Down)
        } else if v[0] == 82 {
            Some(Direction::Right)
        } else {
            None
        }
    } else {
        None
    }
}

/// Resolves a pool string to a colour; see [`color_of_bytes`].
fn color_of_vec(v: &Vec<u8>) -> (r: Option<Color>)
    ensures
        r == color_of_bytes(v@),
{
    if v.len() == 3 && v[0] == 114 && v[1] == 101 && v[2] == 100 {
        Some(Color::Red)
    } else if v.len() == 6 && v[0] == 121 && v[1] == 101 && v[2] == 108 && v[3] == 108 && v[4]
        == 111 && v[5] == 119 {
        Some(Color::Yellow)
    } else if v.len() == 4 && v[0] == 98 && v[1] == 108 && v[2] == 117 && v[3] == 101 {
        Some(Color::Blue)
    } else if v.len() == 6 && v[0] == 111 && v[1] == 114 && v[2] == 97 && v[3] == 110 && v[4]
        == 103 && v[5] == 101 {
        Some(Color::Orange)
    } else if v.len() == 5 && v[0] == 103 && v[1] == 114 && v[2] == 101 && v[3] == 101 && v[4]
        == 110 {
        Some(Color::Green)
    } else if v.len() == 4 && v[0] == 112 && v[1] == 105 && v[2] == 110 && v[3] == 107 {
        Some(Color::Pink)
    } else if v.len() == 6 && v[0] == 112 && v[1] == 117 && v[2] == 114 && v[3] == 112 && v[4]
        == 108 && v[5] == 101 {
        Some(Color::Purple)
    } else if v.len() == 4 && v[0] == 99 && v[1] == 121 && v[2] == 97 && v[3] == 110 {
        Some(Color::Cyan)
    } else if v.len() == 5 && v[0] == 119 && v[1] == 104 && v[2] == 105 && v[3] == 116 && v[4]
        == 101 {
        Some(Color::White)
    } else {
        None
    }
}

/// Whether the string table holds the chart marker string.
fn has_chart_marker(strs: &Vec<Vec<u8>>) -> (r: bool)
    ensures
        r == pool_has_marker(strs_view(strs@)),
{
    let mut i: usize = 0;
    while i < strs.len()
        invariant
            i <= strs@.len(),
            forall|k: int| 0 <= k < i ==> !is_chart_marker(#[trigger] strs_view(strs@)[k]),
        decreases strs@.len() - i,
    {
        let s = &strs[i];
        if s.len() == 7 && s[0] == 98 && s[1] == 101 && s[2] == 97 && s[3] == 116 && s[4] == 66
            && s[5] == 111 && s[6] == 120 {
            proof {
                assert(is_chart_marker(strs_view(strs@)[i as int]));
            }
            return true;
        }
        i = i + 1;
    }
    false
}

/// Parses the string table of a constant-pool payload; see [`parse_pool`].
fn parse_pool_table(d: &Vec<u8>) -> (r: Option<Vec<Vec<u8>>>)
    ensures
        r is Some <==> parse_pool(d@) is Some,
        r matches Some(v) ==> parse_pool(d@) == Some(strs_view(v@)),
{
    if d.len() < 2 {
        return None;
    }
    let count = read_u16(d, 0);
    let ghost gcount = u16_le(d@, 0);
    let mut strs: Vec<Vec<u8>> = Vec::new();
    let mut j: usize = 2;
    let mut remaining: u16 = count;
    proof {
        assert(strs_view(strs@) =~= Seq::<Seq<u8>>::empty());
    }
    while remaining > 0
        invariant
            2 <= j <= d@.len(),
            d@.len() >= 2,
            gcount == u16_le(d@, 0),
            pool_strings(d@, 2, gcount, Seq::empty()) == pool_strings(
                d@,
                j as int,
                remaining as int,
                strs_view(strs@),
            ),
        decreases remaining,
    {
        let p = find_null(d, j);
        proof {
            lemma_null_pos_bounds(d@, j as int);
        }
        if p >= d.len() {
            proof {
                assert(pool_strings(d@, j as int, remaining as int, strs_view(strs@))
                    == strs_view(strs@));
            }
            return Some(strs);
        }
        let s = copy_range(d, j, p);
        let ghost pre = strs_view(strs@);
        strs.push(s);
        proof {
            assert(strs_view(strs@) =~= pre.push(d@.subrange(j as int, p as int)));
        }
        j = p + 1;
        remaining = remaining - 1;
    }
    proof {
        assert(pool_strings(d@, j as int, 0, strs_view(strs@)) == strs_view(strs@));
    }
    Some(strs)
}

/// Parses the values of a push payload; see [`parse_push`].
fn parse_push_values(b: &Vec<u8>) -> (r: Option<Vec<StackValue>>)
    ensures
        r is Some <==> parse_push(b@, 0, Seq::empty()) is Some,
        r matches Some(v) ==> parse_push(b@, 0, Seq::empty()) == Some(v@),
{
    let mut acc: Vec<StackValue> = Vec::new();
    let mut j: usize = 0;
    proof {
        assert(acc@ =~= Seq::<StackValue>::empty());
    }
    while j < b.len()
        invariant
            j <= b@.len(),
            parse_push(b@, 0, Seq::empty()) == parse_push(b@, j as int, acc@),
        decreases b@.len() - j,
    {
        let ghost pre_j = j as int;
        let ghost pre_acc = acc@;
        let t = b[j];
        if t == 0 {
            let p = find_null(b, j + 1);
            if p >= b.len() {
                return None;
            }
            acc.push(StackValue::Other);
            j = p + 1;
        } else if t == 1 {
            if b.len() - j >= 5 {
                acc.push(StackValue::Other);
                j = j + 5;
            } else {
                return None;
            }
        } else if t == 2 || t == 3 {
            acc.push(StackValue::Other);
            j = j + 1;
        } else if t == 4 || t == 5 {
            if b.len() - j >= 2 {
                acc.push(StackValue::Other);
                j = j + 2;
            } else {
                return None;
            }
        } else if t == 6 {
            if b.len() - j >= 9 {
                acc.push(StackValue::Other);
                j = j + 9;
            } else {
                return None;
            }
        } else if t == 7 {
            if b.len() - j >= 5 {
                let v = read_i32(b, j + 1);
                acc.push(StackValue::Int(v));
                j = j + 5;
            } else {
                return None;
            }
        } else if t == 8 {
            if b.len() - j >= 2 {
                acc.push(StackValue::PoolRef(b[j + 1] as u16));
                j = j + 2;
            } else {
                return None;
            }
        } else if t == 9 {
            if b.len() - j >= 3 {
                let x = read_u16(b, j + 1);
                acc.push(StackValue::PoolRef(x));
                j = j + 3;
            } else {
                return None;
            }
        } else {
            j = j + 1;
        }
        proof {
            if t == 0 {
                lemma_null_pos_bounds(b@, pre_j + 1);
            }
            assert(parse_push(b@, pre_j, pre_acc) == parse_push(b@, j as int, acc@));
        }
    }
    Some(acc)
}

/// Pops the beat position: the unsigned magnitude of a numeric operand.
/// Fails with `BeatPosition` if the operand is missing or not numeric.
pub fn parse_beat_position(value_stack: &mut Vec<StackValue>) -> (r: Result<u32, ChartParseError>)
    ensures
        pop_int(old(value_stack)@) matches Some(p) ==> r == Ok::<u32, ChartParseError>(p.0)
            && final(value_stack)@ == p.1,
        pop_int(old(value_stack)@) is None ==> r == Err::<u32, ChartParseError>(
            ChartParseError::BeatPosition,
        ),
        old(value_stack)@.len() > 0 ==> final(value_stack)@ == old(value_stack)@.drop_last(),
        old(value_stack)@.len() == 0 ==> final(value_stack)@ == old(value_stack)@,
{
    if let Some(v) = value_stack.pop() {
        match v {
            StackValue::Int(ms) => Ok(abs_of_i32(ms)),
            _ => Err(ChartParseError::BeatPosition),
        }
    } else {
        Err(ChartParseError::BeatPosition)
    }
}

/// Pops the explicit timestamp: the unsigned magnitude of a numeric operand.
/// Fails with `Timestamp` if the operand is missing or not numeric.
pub fn parse_timestamp(value_stack: &mut Vec<StackValue>) -> (r: Result<u32, ChartParseError>)
    ensures
        pop_int(old(value_stack)@) matches Some(p) ==> r == Ok::<u32, ChartParseError>(p.0)
            && final(value_stack)@ == p.1,
        pop_int(old(value_stack)@) is None ==> r == Err::<u32, ChartParseError>(
            ChartParseError::Timestamp,
        ),
        old(value_stack)@.len() > 0 ==> final(value_stack)@ == old(value_stack)@.drop_last(),
        old(value_stack)@.len() == 0 ==> final(value_stack)@ == old(value_stack)@,
{
    if let Some(v) = value_stack.pop() {
        match v {
            StackValue::Int(ms) => Ok(abs_of_i32(ms)),
            _ => Err(ChartParseError::Timestamp),
        }
    } else {
        Err(ChartParseError::Timestamp)
    }
}

/// Pops the direction operand and resolves it through the constant pool
/// against `L`, `U`, `D`, `R`. Fails with `NoteDirection` on any mismatch.
pub fn parse_direction(
    value_stack: &mut Vec<StackValue>,
    constant_pool: &Option<Vec<Vec<u8>>>,
) -> (r: Result<Direction, ChartParseError>)
    ensures
        pop_pool_str(old(value_stack)@, view_pool(*constant_pool)) matches Some(p) ==> (
        dir_of_bytes(p.0) matches Some(d) ==> (r == Ok::<Direction, ChartParseError>(d)
            && final(value_stack)@ == p.1)),
        pop_pool_str(old(value_stack)@, view_pool(*constant_pool)) is None ==> r == Err::<
            Direction,
            ChartParseError,
        >(ChartParseError::NoteDirection),
        pop_pool_str(old(value_stack)@, view_pool(*constant_pool)) matches Some(p) ==> (
        dir_of_bytes(p.0) is None ==> r == Err::<Direction, ChartParseError>(
            ChartParseError::NoteDirection,
        )),
        old(value_stack)@.len() > 0 ==> final(value_stack)@ == old(value_stack)@.drop_last(),
        old(value_stack)@.len() == 0 ==> final(value_stack)@ == old(value_stack)@,
{
    if let Some(v) = value_stack.pop() {
        match v {
            StackValue::PoolRef(ix) => match constant_pool {
                Some(strs) => if (ix as usize) < strs.len() {
                    match dir_of_vec(&strs[ix as usize]) {
                        Some(d) => Ok(d),
                        None => Err(ChartParseError::NoteDirection),
                    }
                } else {
                    Err(ChartParseError::NoteDirection)
                },
                None => Err(ChartParseError::NoteDirection),
            },
            _ => Err(ChartParseError::NoteDirection),
        }
    } else {
        Err(ChartParseError::NoteDirection)
    }
}

/// Pops the colour operand and resolves it through the constant pool against
/// the nine colour names. Fails with `NoteColor` on any mismatch.
pub fn parse_color(
    value_stack: &mut Vec<StackValue>,
    constant_pool: &Option<Vec<Vec<u8>>>,
) -> (r: Result<Color, ChartParseError>)
    ensures
        pop_pool_str(old(value_stack)@, view_pool(*constant_pool)) matches Some(p) ==> (
        color_of_bytes(p.0) matches Some(c) ==> (r == Ok::<Color, ChartParseError>(c)
            && final(value_stack)@ == p.1)),
        pop_pool_str(old(value_stack)@, view_pool(*constant_pool)) is None ==> r == Err::<
            Color,
            ChartParseError,
        >(ChartParseError::NoteColor),
        pop_pool_str(old(value_stack)@, view_pool(*constant_pool)) matches Some(p) ==> (
        color_of_bytes(p.0) is None ==> r == Err::<Color, ChartParseError>(
            ChartParseError::NoteColor,
        )),
        old(value_stack)@.len() > 0 ==> final(value_stack)@ == old(value_stack)@.drop_last(),
        old(value_stack)@.len() == 0 ==> final(value_stack)@ == old(value_stack)@,
{
    if let Some(v) = value_stack.pop() {
        match v {
            StackValue::PoolRef(ix) => match constant_pool {
                Some(strs) => if (ix as usize) < strs.len() {
                    match color_of_vec(&strs[ix as usize]) {
                        Some(c) => Ok(c),
                        None => Err(ChartParseError::NoteColor),
                    }
                } else {
                    Err(ChartParseError::NoteColor)
                },
                None => Err(ChartParseError::NoteColor),
            },
            _ => Err(ChartParseError::NoteColor),
        }
    } else {
        Err(ChartParseError::NoteColor)
    }
}

/// Transfers the values of a push record onto the operand stack, keeping
/// their order.
pub fn parse_push_action(pushed_objects: &Vec<StackValue>, value_stack: &mut Vec<StackValue>)
    ensures
        final(value_stack)@ == old(value_stack)@ + pushed_objects@,
{
    let mut k: usize = 0;
    proof {
        assert(value_stack@ =~= old(value_stack)@ + pushed_objects@.take(0));
    }
    while k < pushed_objects.len()
        invariant
            k <= pushed_objects@.len(),
            value_stack@ == old(value_stack)@ + pushed_objects@.take(k as int),
        decreases pushed_objects@.len() - k,
    {
        value_stack.push(pushed_objects[k]);
        proof {
            assert(value_stack@ =~= old(value_stack)@ + pushed_objects@.take(k + 1));
        }
        k = k + 1;
    }
    proof {
        assert(pushed_objects@.take(pushed_objects@.len() as int) =~= pushed_objects@);
    }
}

/// Interprets one action tag's instruction stream and hands back the note
/// records it encodes; see [`spec_parse_action`] for the exact grammar and
/// failure behaviour.
pub fn parse_action(action: &Vec<u8>) -> (r: Result<Vec<RuntimeNote>, ChartParseError>)
    ensures
        r is Ok <==> spec_parse_action(action@) is Ok,
        r matches Ok(v) ==> spec_parse_action(action@) == Ok::<Seq<RuntimeNote>, ChartParseError>(
            v@,
        ),
        r matches Err(e) ==> spec_parse_action(action@) == Err::<Seq<RuntimeNote>, ChartParseError>(
            e,
        ),
{
    let mut i: usize = 0;
    let mut constant_pool: Option<Vec<Vec<u8>>> = None;
    let mut value_stack: Vec<StackValue> = Vec::new();
    let mut beat_box: Vec<RuntimeNote> = Vec::new();
    let mut running = true;
    let mut failed: Option<ChartParseError> = None;
    proof {
        assert(value_stack@ =~= Seq::<StackValue>::empty());
        assert(beat_box@ =~= Seq::<RuntimeNote>::empty());
    }
    while running && i < action.len()
        invariant
            i <= action@.len(),
            running ==> failed is None,
            running ==> spec_parse_action(action@) == interp(
                action@,
                i as int,
                view_pool(constant_pool),
                value_stack@,
                beat_box@,
            ),
            !running ==> (match failed {
                Some(e) => spec_parse_action(action@) == Err::<Seq<RuntimeNote>, ChartParseError>(
                    e,
                ),
                None => spec_parse_action(action@) == interp_finish(beat_box@),
            }),
        decreases action@.len() - i + (if running { 1int } else { 0int }),
    {
        let ghost pre_i = i as int;
        let ghost pre_pool = view_pool(constant_pool);
        let ghost pre_stack = value_stack@;
        let ghost pre_notes = beat_box@;
        let op = action[i];
        if op < 0x80 {
            if op == 0x00 {
                // End terminates interpretation for this tag
                running = false;
            } else if op == 0x42 {
                // InitArray builds one note record
                if value_stack.len() == 0 {
                    // the first InitArray of a tag arrives over garbage
                    i = i + 1;
                } else {
                    let top = value_stack.pop();
                    match top {
                        Some(StackValue::Int(cnt)) => {
                            if cnt < 0 || value_stack.len() < cnt as usize {
                                // fewer items than asked for: chart data ended
                                running = false;
                                proof {
                                    assert(init_array_step(pre_pool, pre_stack, pre_notes)
                                        == InitOutcome::Stop);
                                }
                            } else {
                                let beat: u32;
                                match parse_beat_position(&mut value_stack) {
                                    Ok(b) => {
                                        beat = b;
                                    },
                                    Err(e) => {
                                        failed = Some(e);
                                        running = false;
                                        continue ;
                                    },
                                }
                                let direction: Direction;
                                match parse_direction(&mut value_stack, &constant_pool) {
                                    Ok(d) => {
                                        direction = d;
                                    },
                                    Err(e) => {
                                        failed = Some(e);
                                        running = false;
                                        continue ;
                                    },
                                }
                                let color: Color;
                                if cnt > 2 {
                                    match parse_color(&mut value_stack, &constant_pool) {
                                        Ok(c) => {
                                            color = c;
                                        },
                                        Err(e) => {
                                            failed = Some(e);
                                            running = false;
                                            continue ;
                                        },
                                    }
                                } else {
                                    color = Color::Blue;
                                }
                                let timestamp: u32;
                                if cnt > 3 {
                                    match parse_timestamp(&mut value_stack) {
                                        Ok(t) => {
                                            timestamp = t;
                                        },
                                        Err(e) => {
                                            failed = Some(e);
                                            running = false;
                                            continue ;
                                        },
                                    }
                                } else {
                                    timestamp = derive_timestamp(beat);
                                }
                                beat_box.push(
                                    RuntimeNote {
                                        beat_position: beat,
                                        direction,
                                        color,
                                        timestamp,
                                    },
                                );
                                i = i + 1;
                            }
                        },
                        Some(_) => {
                            failed = Some(ChartParseError::InitCount);
                            running = false;
                        },
                        None => {
                            proof {
                                assert(false);
                            }
                        },
                    }
                }
            } else {
                // GetVariable, SetMember and every other short opcode are
                // ignored
                i = i + 1;
            }
        } else {
            if action.len() - i < 3 {
                // a truncated record silently ends the stream
                running = false;
            } else {
                let len = read_u16(action, i + 1) as usize;
                if action.len() - i - 3 < len {
                    running = false;
                } else {
                    let body = copy_range(action, i + 3, i + 3 + len);
                    if op == 0x88 {
                        // ConstantPool gates extraction on the chart marker
                        match parse_pool_table(&body) {
                            None => {
                                running = false;
                            },
                            Some(strs) => {
                                if has_chart_marker(&strs) {
                                    constant_pool = Some(strs);
                                    i = i + 3 + len;
                                } else {
                                    running = false;
                                }
                            },
                        }
                    } else if op == 0x96 {
                        // Push transfers its values onto the operand stack
                        match parse_push_values(&body) {
                            None => {
                                running = false;
                            },
                            Some(vals) => {
                                parse_push_action(&vals, &mut value_stack);
                                i = i + 3 + len;
                            },
                        }
                    } else {
                        i = i + 3 + len;
                    }
                }
            }
        }
    }
    if let Some(e) = failed {
        return Err(e);
    }
    if beat_box.len() == 0 {
        Err(ChartParseError::NotChartData)
    } else {
        Ok(beat_box)
    }
}

} // verus!
