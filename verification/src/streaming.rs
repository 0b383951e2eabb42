//! Server-sent events, as the parts of the gateway that decide on them see
//! them.

use vstd::prelude::*;
use crate::text::str_eq;
use crate::types::{ContentBlockChunk, ToolCall, ToolCallChunk};

verus! {

/// An event of a stream of server-sent events.
#[derive(Debug, Clone, PartialEq)]
pub enum SseEvent {
    /// The stream is open.
    Open,
    /// A frame came; `data` is what stood behind `data:`.
    Message { data: String },
}

/// What kind of fault ended or disturbed a stream.
#[derive(Debug, Clone, PartialEq)]
pub enum SseFaultKind {
    /// The transport closed the stream.
    StreamEnded,
    /// The server answered the request with a status that stands for a
    /// failure; `body` is the text of its answer, where it could be read.
    InvalidStatusCode { status: u16, body: Option<String> },
    /// Any other fault.
    Other,
}

/// A fault of a stream, with the text that describes it.
#[derive(Debug, Clone, PartialEq)]
pub struct SseFault {
    pub kind: SseFaultKind,
    pub message: String,
}

/// The sentinel that ends a stream.
pub open spec fn done_text() -> Seq<char> {
    "[DONE]"@
}

/// A tool call as the pieces of a stream make it up.
pub struct CallModel {
    pub id: Seq<char>,
    pub name: Seq<char>,
    pub arguments: Seq<char>,
}

/// The view of a tool call.
pub open spec fn call_model(call: ToolCall) -> CallModel {
    CallModel { id: call.id@, name: call.name@, arguments: call.arguments@ }
}

/// The views of a list of tool calls.
pub open spec fn call_models(calls: Seq<ToolCall>) -> Seq<CallModel> {
    calls.map_values(|c: ToolCall| call_model(c))
}

/// The part of a name that a piece brings: nothing where it brings none.
pub open spec fn name_part(piece: ToolCallChunk) -> Seq<char> {
    match piece.raw_name {
        Some(name) => name@,
        None => Seq::<char>::empty(),
    }
}

/// `i` is the first place at which a call with the id `id` stands.
pub open spec fn first_call_at(calls: Seq<CallModel>, id: Seq<char>, i: int) -> bool {
    &&& 0 <= i < calls.len()
    &&& calls[i].id == id
    &&& forall|j: int| 0 <= j < i ==> (#[trigger] calls[j]).id != id
}

/// Whether one of the calls has the id `id`.
pub open spec fn has_call(calls: Seq<CallModel>, id: Seq<char>) -> bool {
    exists|i: int| 0 <= i < calls.len() && (#[trigger] calls[i]).id == id
}

/// The calls with one more piece: the piece goes to the end of the name and
/// of the arguments of the call with its id, or starts a new call, at the end.
pub open spec fn with_piece(calls: Seq<CallModel>, piece: ToolCallChunk) -> Seq<CallModel> {
    if has_call(calls, piece.id@) {
        let i = choose|i: int| first_call_at(calls, piece.id@, i);
        calls.update(
            i,
            CallModel {
                id: piece.id@,
                name: calls[i].name + name_part(piece),
                arguments: calls[i].arguments + piece.raw_arguments@,
            },
        )
    } else {
        calls.push(
            CallModel { id: piece.id@, name: name_part(piece), arguments: piece.raw_arguments@ },
        )
    }
}

/// The tool calls that the blocks of a stream make up: the pieces with one
/// id make one call, whose name and arguments are those of its pieces
/// joined in their order; the calls stand in the order in which their first
/// pieces came. Blocks that are no pieces of tool calls add nothing.
pub open spec fn stitched(blocks: Seq<ContentBlockChunk>) -> Seq<CallModel>
    decreases blocks.len(),
{
    if blocks.len() == 0 {
        Seq::<CallModel>::empty()
    } else {
        match blocks.last() {
            ContentBlockChunk::ToolCall(piece) => with_piece(stitched(blocks.drop_last()), piece),
            _ => stitched(blocks.drop_last()),
        }
    }
}

fn find_call(calls: &Vec<ToolCall>, id: &str) -> (r: Option<usize>)
    ensures
        match r {
            Some(i) => first_call_at(call_models(calls@), id@, i as int) && has_call(
                call_models(calls@),
                id@,
            ) && (choose|j: int| first_call_at(call_models(calls@), id@, j)) == i,
            None => !has_call(call_models(calls@), id@),
        },
{
    let ghost models = call_models(calls@);
    let mut i: usize = 0;
    while i < calls.len()
        invariant
            i <= calls@.len(),
            models == call_models(calls@),
            forall|j: int| 0 <= j < i ==> (#[trigger] models[j]).id != id@,
        decreases calls@.len() - i,
    {
        if str_eq(calls[i].id.as_str(), id) {
            proof {
                assert(models[i as int].id == id@);
                assert(first_call_at(models, id@, i as int));
                let c = choose|j: int| first_call_at(models, id@, j);
                assert(first_call_at(models, id@, c));
                if c < i {
                    assert(models[c].id != id@);
                }
                if i < c {
                    assert(models[i as int].id != id@);
                }
            }
            return Some(i);
        }
        i = i + 1;
    }
    None
}

/// Makes whole tool calls of the blocks of a stream, in the order in which
/// the blocks came: the pieces with one id are joined into one call.
pub fn collect_tool_calls(blocks: &Vec<ContentBlockChunk>) -> (r: Vec<ToolCall>)
    ensures
        call_models(r@) == stitched(blocks@),
{
    let mut calls: Vec<ToolCall> = Vec::new();
    let mut k: usize = 0;
    proof {
        assert(blocks@.take(0) =~= Seq::<ContentBlockChunk>::empty());
        assert(call_models(calls@) =~= Seq::<CallModel>::empty());
    }
    while k < blocks.len()
        invariant
            k <= blocks@.len(),
            call_models(calls@) == stitched(blocks@.take(k as int)),
        decreases blocks@.len() - k,
    {
        proof {
            assert(blocks@.take(k + 1).drop_last() =~= blocks@.take(k as int));
            assert(blocks@.take(k + 1).last() == blocks@[k as int]);
        }
        if let ContentBlockChunk::ToolCall(piece) = &blocks[k] {
            let ghost before = call_models(calls@);
            match find_call(&calls, piece.id.as_str()) {
                Some(i) => {
                    let mut name = calls[i].name.clone();
                    match &piece.raw_name {
                        Some(part) => {
                            name.append(part.as_str());
                        },
                        None => {
                            assert(name@ + Seq::<char>::empty() =~= name@);
                        },
                    }
                    let mut arguments = calls[i].arguments.clone();
                    arguments.append(piece.raw_arguments.as_str());
                    let id = calls[i].id.clone();
                    calls.set(i, ToolCall { id, name, arguments });
                    proof {
                        assert(call_models(calls@) =~= with_piece(before, *piece));
                    }
                },
                None => {
                    let name = match &piece.raw_name {
                        Some(part) => part.clone(),
                        None => String::new(),
                    };
                    calls.push(
                        ToolCall {
                            id: piece.id.clone(),
                            name,
                            arguments: piece.raw_arguments.clone(),
                        },
                    );
                    proof {
                        assert(call_models(calls@) =~= with_piece(before, *piece));
                    }
                },
            }
        }
        k = k + 1;
    }
    proof {
        assert(blocks@.take(blocks@.len() as int) =~= blocks@);
    }
    calls
}

/// The pieces of one tool call alone make that call: its id is theirs, and
/// its arguments are theirs, joined in their order.
pub proof fn lemma_pieces_of_one_call(first: ToolCallChunk, second: ToolCallChunk)
    requires
        first.id@ == second.id@,
    ensures
        stitched(seq![ContentBlockChunk::ToolCall(first), ContentBlockChunk::ToolCall(second)])
            == seq![
            CallModel {
                id: first.id@,
                name: name_part(first) + name_part(second),
                arguments: first.raw_arguments@ + second.raw_arguments@,
            },
        ],
{
    let a = ContentBlockChunk::ToolCall(first);
    let b = ContentBlockChunk::ToolCall(second);
    let both = seq![a, b];
    assert(both.drop_last() =~= seq![a]);
    assert(seq![a].drop_last() =~= Seq::<ContentBlockChunk>::empty());
    assert(both.last() == b);
    assert(seq![a].last() == a);
    reveal_with_fuel(stitched, 3);
    let none = Seq::<CallModel>::empty();
    assert(!has_call(none, first.id@));
    let one = with_piece(none, first);
    assert(one =~= seq![
        CallModel { id: first.id@, name: name_part(first), arguments: first.raw_arguments@ },
    ]);
    assert(stitched(seq![a]) == one);
    assert(one[0].id == second.id@);
    assert(has_call(one, second.id@));
    let i = choose|i: int| first_call_at(one, second.id@, i);
    assert(first_call_at(one, second.id@, 0));
    assert(first_call_at(one, second.id@, i));
    assert(i == 0);
    assert(with_piece(one, second) =~= seq![
        CallModel {
            id: first.id@,
            name: name_part(first) + name_part(second),
            arguments: first.raw_arguments@ + second.raw_arguments@,
        },
    ]);
}

} // verus!
