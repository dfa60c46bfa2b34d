use vstd::prelude::*;

verus! {

/// The bytes a sequence of chunks carries, each chunk appended in order —
/// exactly what the streaming loop leaves in the output file.
pub open spec fn concat_chunks(cs: Seq<Seq<u8>>) -> Seq<u8>
    decreases cs.len(),
{
    if cs.len() == 0 {
        Seq::<u8>::empty()
    } else {
        concat_chunks(cs.drop_last()) + cs.last()
    }
}

/// Appending chunks in order yields their flattening: the result is a
/// function of the carried bytes alone, not of where the chunk boundaries
/// fall.
pub proof fn lemma_concat_chunks_is_flatten(cs: Seq<Seq<u8>>)
    ensures
        concat_chunks(cs) == cs.flatten(),
    decreases cs.len(),
{
    cs.lemma_flatten_and_flatten_alt_are_equivalent();
    if cs.len() == 0 {
        assert(concat_chunks(cs) =~= cs.flatten_alt());
    } else {
        lemma_concat_chunks_is_flatten(cs.drop_last());
        cs.drop_last().lemma_flatten_and_flatten_alt_are_equivalent();
    }
}

/// Round trip: however the network happens to cut one payload into chunks,
/// writing the chunks in arrival order reproduces the payload byte for byte.
pub proof fn lemma_reassembly_exact(cs1: Seq<Seq<u8>>, cs2: Seq<Seq<u8>>, payload: Seq<u8>)
    requires
        cs1.flatten() == payload,
        cs2.flatten() == payload,
    ensures
        concat_chunks(cs1) == payload,
        concat_chunks(cs2) == payload,
{
    lemma_concat_chunks_is_flatten(cs1);
    lemma_concat_chunks_is_flatten(cs2);
}

/// Appends the chunks of `chunks` to `out` in order — the streaming write
/// loop, with a byte vector standing for the output file.
pub fn assemble_into(out: &mut Vec<u8>, chunks: &Vec<Vec<u8>>)
    ensures
        final(out)@ == old(out)@ + concat_chunks(chunks@.map_values(|c: Vec<u8>| c@)),
{
    let ghost dv = chunks@.map_values(|c: Vec<u8>| c@);
    let mut i: usize = 0;
    while i < chunks.len()
        invariant
            i <= chunks.len(),
            dv == chunks@.map_values(|c: Vec<u8>| c@),
            out@ == old(out)@ + concat_chunks(dv.take(i as int)),
        decreases chunks.len() - i,
    {
        let chunk = &chunks[i];
        let mut j: usize = 0;
        while j < chunk.len()
            invariant
                j <= chunk.len(),
                chunk@ == chunks@[i as int]@,
                i < chunks.len(),
                dv == chunks@.map_values(|c: Vec<u8>| c@),
                out@ == old(out)@ + concat_chunks(dv.take(i as int)) + chunk@.take(j as int),
            decreases chunk.len() - j,
        {
            out.push(chunk[j]);
            proof {
                assert(chunk@.take(j as int).push(chunk@[j as int]) =~= chunk@.take(
                    j + 1 as int,
                ));
            }
            j = j + 1;
        }
        proof {
            assert(chunk@.take(chunk@.len() as int) =~= chunk@);
            assert(dv.take(i + 1 as int).drop_last() =~= dv.take(i as int));
            assert(dv.take(i + 1 as int).last() == dv[i as int]);
        }
        i = i + 1;
    }
    proof {
        assert(dv.take(chunks@.len() as int) =~= dv);
    }
}

/// The bytes one payload's chunks carry, reassembled in arrival order.
pub fn assemble(chunks: &Vec<Vec<u8>>) -> (out: Vec<u8>)
    ensures
        out@ == concat_chunks(chunks@.map_values(|c: Vec<u8>| c@)),
{
    let mut out: Vec<u8> = Vec::new();
    assemble_into(&mut out, chunks);
    out
}

} // verus!
