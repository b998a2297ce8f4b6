//! The assembler: turns a program of instructions into its byte stream.
use vstd::prelude::*;
use crate::decode::{decoding, DecodeError, lemma_decode_encoding};
use crate::encode::{encode_instruction, encoding, EncodeError};
use crate::isa::Instruction;

verus! {

/// Why a program could not be assembled.
#[derive(Clone, Debug, PartialEq, Eq)]
pub enum AssemblyError {
    /// A source file could not be read; the message describes why.
    File(String),
    /// A variable was used without being defined, at the given position.
    UndefinedVariable(String, usize),
    /// The operands of an expression have different types.
    TypeMismatch,
    /// The instruction at this index of the program has no encoding.
    Unencodable(usize, EncodeError),
}

/// Whether every instruction of `code` has an encoding.
pub open spec fn all_encodable(code: Seq<Instruction>) -> bool {
    forall|k: int| 0 <= k < code.len() ==> (#[trigger] encoding(code[k])) is Ok
}

/// The concatenated encodings of the instructions of `code`, in order.
pub open spec fn program_bytes(code: Seq<Instruction>) -> Seq<u8>
    decreases code.len(),
{
    if code.len() == 0 {
        Seq::empty()
    } else {
        program_bytes(code.drop_last()) + encoding(code.last())->Ok_0
    }
}

/// The assembler of the first version of the instruction set.
pub struct Ver0;

/// A front end that turns a source file into a byte stream.
pub trait Assembler {
    fn assemble_file(path: &str) -> Result<Vec<u8>, AssemblyError>;
}

impl Ver0 {
    /// Encodes `code` instruction by instruction, in order. Fails on the first instruction
    /// that has no encoding, naming its index, and writes nothing then.
    pub fn assemble_to_bytes(code: Vec<Instruction>) -> (r: Result<Vec<u8>, AssemblyError>)
        ensures
            r is Ok <==> all_encodable(code@),
            r is Ok ==> r->Ok_0@ == program_bytes(code@),
            r is Err ==> exists|k: int, e: EncodeError|
                0 <= k < code@.len() && encoding(code@[k]) == Err::<Seq<u8>, EncodeError>(e)
                    && (forall|j: int| 0 <= j < k ==> (#[trigger] encoding(code@[j])) is Ok)
                    && r->Err_0 == AssemblyError::Unencodable(k as usize, e),
    {
        let mut bytes: Vec<u8> = Vec::new();
        let mut i: usize = 0;
        while i < code.len()
            invariant
                0 <= i <= code@.len(),
                forall|j: int| 0 <= j < i ==> (#[trigger] encoding(code@[j])) is Ok,
                bytes@ == program_bytes(code@.take(i as int)),
            decreases code@.len() - i,
        {
            match encode_instruction(&code[i]) {
                Ok(mut enc) => {
                    proof {
                        let t = code@.take(i as int + 1);
                        assert(t.drop_last() =~= code@.take(i as int));
                        assert(t.last() == code@[i as int]);
                    }
                    bytes.append(&mut enc);
                },
                Err(e) => {
                    proof {
                        assert(!all_encodable(code@)) by {
                            assert(encoding(code@[i as int]) is Err);
                        }
                    }
                    return Err(AssemblyError::Unencodable(i, e));
                },
            }
            i = i + 1;
        }
        assert(code@.take(i as int) =~= code@);
        Ok(bytes)
    }
}

/// The encoding of `code` up to instruction `a` is a prefix of its encoding up to `b`.
proof fn lemma_program_prefix(code: Seq<Instruction>, a: int, b: int)
    requires
        0 <= a <= b <= code.len(),
    ensures
        program_bytes(code.take(a)).len() <= program_bytes(code.take(b)).len(),
        program_bytes(code.take(b)).subrange(0, program_bytes(code.take(a)).len() as int)
            == program_bytes(code.take(a)),
    decreases b - a,
{
    let pa = program_bytes(code.take(a));
    if a == b {
        assert(pa.subrange(0, pa.len() as int) =~= pa);
    } else {
        lemma_program_prefix(code, a, b - 1);
        assert(code.take(b).drop_last() =~= code.take(b - 1));
        let pb1 = program_bytes(code.take(b - 1));
        let pb = program_bytes(code.take(b));
        assert(pb == pb1 + encoding(code.take(b).last())->Ok_0);
        assert(pb.subrange(0, pa.len() as int) =~= pb1.subrange(0, pa.len() as int));
    }
}

/// In an assembled program, decoding at the offset where instruction `k` starts gives that
/// instruction back, with the length of its encoding.
pub proof fn lemma_program_decodes(code: Seq<Instruction>, k: int)
    requires
        all_encodable(code),
        0 <= k < code.len(),
    ensures
        decoding(program_bytes(code), program_bytes(code.take(k)).len() as int)
            == Ok::<(Instruction, nat), DecodeError>((code[k], encoding(code[k])->Ok_0.len())),
{
    let m = program_bytes(code);
    let at = program_bytes(code.take(k)).len() as int;
    let e = encoding(code[k])->Ok_0;
    assert(encoding(code[k]) is Ok);
    lemma_program_prefix(code, k + 1, code.len() as int);
    assert(code.take(code.len() as int) =~= code);
    assert(code.take(k + 1).drop_last() =~= code.take(k));
    assert(code.take(k + 1).last() == code[k]);
    let upto = program_bytes(code.take(k + 1));
    assert(upto == program_bytes(code.take(k)) + e);
    assert(m.subrange(at, at + e.len()) =~= e) by {
        assert forall|j: int| 0 <= j < e.len() implies m.subrange(at, at + e.len())[j] == e[j] by {
            assert(m.subrange(0, upto.len() as int)[at + j] == upto[at + j]);
        }
    }
    lemma_decode_encoding(code[k], m, at);
}

} // verus!
