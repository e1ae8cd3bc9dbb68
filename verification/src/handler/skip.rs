use crate::handler::bytes::{
    ascii_bytes, decimal_value, find_byte, is_digit, is_numeral, lemma_find_byte,
    lemma_find_byte_skip, LF, SP,
};
use crate::handler::sync::{
    chunk_end, count_value, lemma_chunk_end, spec_drain, spec_feed, spec_parse_line, trim_line,
    LineModel, RecordState,
};
use vstd::prelude::*;

verus! {

/// A search in the second of two joined texts finds what the search in that
/// text alone finds, moved by the length of the first.
proof fn lemma_find_byte_joined(a: Seq<u8>, b: Seq<u8>, x: u8, from: int)
    requires
        0 <= from <= b.len(),
    ensures
        find_byte(a + b, x, a.len() + from) == a.len() + find_byte(b, x, from),
    decreases b.len() - from,
{
    if from < b.len() {
        assert((a + b)[a.len() + from] == b[from]);
        if b[from] != x {
            lemma_find_byte_joined(a, b, x, from + 1);
        }
    }
}

/// Reading the second of two joined inputs from a place in it gives what
/// reading that input alone from that place gives.
proof fn lemma_drain_joined(st: RecordState, a: Seq<u8>, b: Seq<u8>, from: int)
    requires
        0 <= from <= b.len(),
    ensures
        spec_drain(st, a + b, a.len() + from) == spec_drain(st, b, from),
    decreases b.len() - from,
{
    if from < b.len() {
        lemma_find_byte_joined(a, b, LF, from);
        lemma_chunk_end(b, from);
        let end = chunk_end(b, from);
        assert(chunk_end(a + b, a.len() + from) == a.len() + end);
        assert((a + b).subrange(a.len() + from, a.len() + end) =~= b.subrange(from, end));
        let fed = spec_feed(st, b.subrange(from, end));
        lemma_drain_joined(fed.0, a, b, end);
    }
}

/// The step of the law below: with `pos` bytes of the payload read and the
/// rest still to be passed over.
proof fn lemma_payload_from(st: RecordState, payload: Seq<u8>, rest: Seq<u8>, pos: int)
    requires
        !st.failed,
        0 <= pos <= payload.len(),
        st.skip_size == payload.len() - pos,
    ensures
        spec_drain(st, payload + rest, pos) == spec_drain(
            RecordState { skip_size: 0, ..st },
            rest,
            0,
        ),
    decreases payload.len() - pos,
{
    let input = payload + rest;
    let size = payload.len() as int;
    let ready = RecordState { skip_size: 0, ..st };
    if pos == size {
        assert(ready == st);
        lemma_drain_joined(st, payload, rest, 0);
    } else {
        lemma_chunk_end(input, pos);
        lemma_find_byte(input, LF, pos);
        let end = chunk_end(input, pos);
        let chunk = input.subrange(pos, end);
        if end <= size {
            let next = RecordState { skip_size: (st.skip_size - chunk.len()) as usize, ..st };
            assert(RecordState { skip_size: 0, ..next } == ready);
            lemma_payload_from(next, payload, rest, end);
        } else {
            let found = find_byte(input, LF, pos);
            lemma_find_byte_skip(input, LF, pos, size);
            lemma_find_byte_joined(payload, rest, LF, 0);
            lemma_find_byte(rest, LF, 0);
            let cut = end - size;
            assert(chunk_end(rest, 0) == cut);
            assert(chunk.skip(st.skip_size as int) =~= rest.subrange(0, cut));
            assert(rest.subrange(0, cut).skip(0) =~= rest.subrange(0, cut));
            let fed = spec_feed(ready, rest.subrange(0, cut));
            assert(spec_feed(st, chunk) == fed);
            lemma_drain_joined(fed.0, payload, rest, cut);
        }
    }
}

/// The payload of a message is passed over byte for byte. A parser that has
/// as many bytes to pass over as the payload holds reads the payload and what
/// follows it as it would read what follows alone, whatever the payload
/// holds: line feeds and blank lines in it end nothing, and where a chunk
/// runs beyond the payload, the line starts at the first byte behind it.
pub proof fn lemma_payload_is_passed_over(st: RecordState, payload: Seq<u8>, rest: Seq<u8>)
    requires
        !st.failed,
        st.skip_size == payload.len(),
    ensures
        spec_drain(st, payload + rest, 0) == spec_drain(
            RecordState { skip_size: 0, ..st },
            rest,
            0,
        ),
{
    lemma_payload_from(st, payload, rest, 0);
}

/// A `data` line with a count is read as the order to pass over so many bytes.
proof fn lemma_data_line(count: Seq<u8>)
    requires
        is_numeral(count),
        decimal_value(count) <= usize::MAX,
    ensures
        spec_parse_line(ascii_bytes("data "@) + count) == Ok::<LineModel, crate::error::SyncError>(
            LineModel::SkipMessage(decimal_value(count) as usize),
        ),
{
    reveal_strlit("data ");
    reveal_strlit("data");
    reveal_strlit("commit");
    reveal_strlit("mark");
    reveal_strlit("original-oid");
    let line = ascii_bytes("data "@) + count;
    assert(line[0] == 0x64 && line[1] == 0x61 && line[2] == 0x74 && line[3] == 0x61 && line[4]
        == SP);
    lemma_find_byte_skip(line, SP, 0, 4);
    assert(find_byte(line, SP, 4) == 4);
    let token = line.take(4);
    assert(token =~= ascii_bytes("data"@));
    assert(token.len() != ascii_bytes("commit"@).len());
    assert(token[0] != ascii_bytes("mark"@)[0]);
    assert(token.len() != ascii_bytes("original-oid"@).len());
    assert(line.skip(5) =~= count);
    assert(count_value(count) == Some(decimal_value(count) as usize));
}

/// A message is passed over whole. From the start of a line, a `data` line
/// that counts the bytes of a payload, the payload, and what follows are read
/// as what follows would be read alone.
pub proof fn lemma_message_is_passed_over(
    st: RecordState,
    count: Seq<u8>,
    payload: Seq<u8>,
    rest: Seq<u8>,
)
    requires
        !st.failed,
        st.skip_size == 0,
        is_numeral(count),
        decimal_value(count) == payload.len(),
        payload.len() <= usize::MAX,
    ensures
        spec_drain(st, ascii_bytes("data "@) + count + seq![LF] + payload + rest, 0) == spec_drain(
            st,
            rest,
            0,
        ),
{
    reveal_strlit("data ");
    let line = ascii_bytes("data "@) + count;
    let head = line + seq![LF];
    let input = ascii_bytes("data "@) + count + seq![LF] + payload + rest;
    let size = head.len() as int;
    assert(input =~= head + (payload + rest));
    assert forall|k: int| 0 <= k < size - 1 implies input[k] != LF by {
        if k >= 5 {
            assert(input[k] == count[k - 5]);
            assert(is_digit(count[k - 5]));
        }
    }
    lemma_find_byte_skip(input, LF, 0, size - 1);
    assert(input[size - 1] == LF);
    assert(find_byte(input, LF, size - 1) == size - 1);
    assert(chunk_end(input, 0) == size);
    assert(input.subrange(0, size) =~= head);
    assert(head.skip(0) =~= head);
    assert(head.drop_last() =~= line);
    assert(line.last() == count.last());
    assert(is_digit(count[count.len() - 1]));
    assert(trim_line(head) == line);
    lemma_data_line(count);
    let skipping = RecordState { skip_size: payload.len() as usize, ..st };
    assert(RecordState { skip_size: 0, ..st } == st);
    assert(spec_feed(st, head).0 == skipping);
    lemma_drain_joined(skipping, head, payload + rest, 0);
    lemma_payload_is_passed_over(skipping, payload, rest);
}

} // verus!
