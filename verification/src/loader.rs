//! Parsing the binary image into a memory pool and an instruction stream.
//!
//! The image layout is a fixed watermark terminated by a NUL byte, then the
//! literal-pool text terminated by the next NUL byte, then the raw
//! instruction bytes, which must not be empty. Both delimiters are found by
//! linear scan, so pool text holding a NUL byte cannot be framed.

use vstd::prelude::*;

use crate::json::{json_array_of, parse_json_array, JsonV, JsonVal};
use crate::obj::{from_json_spec, Obj, ObjV};

verus! {

/// Why an image failed to load. No partial machine is ever built from a
/// rejected image.
#[derive(Clone, Copy, Debug, PartialEq, Eq, Structural)]
pub enum LoadError {
    /// The image does not start with the magic watermark.
    BadWatermark,
    /// The literal-pool text is missing its terminating NUL byte or does
    /// not parse as an array.
    InvalidMemoryFormat,
    /// A literal-pool element is not null, a boolean, a 64-bit integer or
    /// a string.
    InvalidMemoryValue,
    /// The instruction region holds zero bytes.
    EmptyInstructions,
}

/// The diagnostic text for each load failure.
pub open spec fn message_spec(e: LoadError) -> Seq<char> {
    match e {
        LoadError::BadWatermark => "watermark check failed"@,
        LoadError::InvalidMemoryFormat => "invalid memory format"@,
        LoadError::InvalidMemoryValue => "invalid JSON type used in memory"@,
        LoadError::EmptyInstructions => "empty instructions list"@,
    }
}

impl LoadError {
    /// The diagnostic text reported for this load failure.
    pub fn message(&self) -> (r: &'static str)
        ensures
            r@ == message_spec(*self),
    {
        match self {
            LoadError::BadWatermark => "watermark check failed",
            LoadError::InvalidMemoryFormat => "invalid memory format",
            LoadError::InvalidMemoryValue => "invalid JSON type used in memory",
            LoadError::EmptyInstructions => "empty instructions list",
        }
    }
}

/// The magic watermark that every image must start with: the bytes of
/// `Rick` and a terminating NUL.
pub open spec fn watermark() -> Seq<u8> {
    seq![82u8, 105u8, 99u8, 107u8, 0u8]
}

/// How many bytes the watermark occupies.
pub const WATERMARK_LEN: usize = 5;

/// Whether the buffer starts with the magic watermark.
pub open spec fn watermark_ok_spec(data: Seq<u8>) -> bool {
    data.len() >= 5 && data.subrange(0, 5) == watermark()
}

/// Check the watermark at the start of the buffer.
pub fn watermark_ok(data: &Vec<u8>) -> (r: bool)
    ensures
        r == watermark_ok_spec(data@),
{
    if data.len() < 5 {
        return false;
    }
    let r = data[0] == 82 && data[1] == 105 && data[2] == 99 && data[3] == 107 && data[4] == 0;
    proof {
        if r {
            assert(data@.subrange(0, 5) =~= watermark());
        } else {
            assert(data@.subrange(0, 5) != watermark()) by {
                if data@.subrange(0, 5) == watermark() {
                    assert(data@[0] == watermark()[0]);
                    assert(data@[1] == watermark()[1]);
                    assert(data@[2] == watermark()[2]);
                    assert(data@[3] == watermark()[3]);
                    assert(data@[4] == watermark()[4]);
                }
            }
        }
    }
    r
}

/// The index of the first NUL byte at or after `from`, if there is one.
pub open spec fn first_nul_from(data: Seq<u8>, from: int) -> Option<int>
    decreases data.len() - from,
{
    if from < 0 || from >= data.len() {
        None
    } else if data[from] == 0 {
        Some(from)
    } else {
        first_nul_from(data, from + 1)
    }
}

/// Find the first NUL byte at or after `from`.
#[verifier::loop_isolation(false)]
fn find_nul_from(data: &Vec<u8>, from: usize) -> (r: Option<usize>)
    ensures
        match r {
            Some(i) => first_nul_from(data@, from as int) == Some(i as int) && from <= i
                && i < data@.len() && data@[i as int] == 0,
            None => first_nul_from(data@, from as int) is None,
        },
{
    let mut i = from;
    while i < data.len()
        invariant
            from <= i,
            first_nul_from(data@, from as int) == first_nul_from(data@, i as int),
        decreases data@.len() - i,
    {
        if data[i] == 0 {
            return Some(i);
        }
        i = i + 1;
    }
    None
}

/// What decoding a whole literal-pool array yields: every element decoded
/// in order, or the first failure — each bad element is an invalid memory
/// value, so the failure is that error exactly when any element is bad.
pub open spec fn decode_pool_spec(vals: Seq<JsonV>) -> Result<Seq<ObjV>, LoadError> {
    if forall|i: int| 0 <= i < vals.len() ==> from_json_spec(#[trigger] vals[i]) is Ok {
        Ok(Seq::new(vals.len(), |i: int| from_json_spec(vals[i])->Ok_0))
    } else {
        Err(LoadError::InvalidMemoryValue)
    }
}

/// Decode every element of a parsed literal-pool array into a runtime
/// value, exactly as [`decode_pool_spec`] defines it.
#[verifier::loop_isolation(false)]
pub fn json_into_obj(vals: Vec<JsonVal>) -> (r: Result<Vec<Obj>, LoadError>)
    ensures
        match r {
            Ok(objs) => decode_pool_spec(vals@.map_values(|e: JsonVal| e@))
                == Ok::<Seq<ObjV>, LoadError>(objs@.map_values(|o: Obj| o@)),
            Err(e) => decode_pool_spec(vals@.map_values(|e: JsonVal| e@))
                == Err::<Seq<ObjV>, LoadError>(e),
        },
{
    let ghost views = vals@.map_values(|e: JsonVal| e@);
    let mut objs: Vec<Obj> = Vec::new();
    let mut i: usize = 0;
    while i < vals.len()
        invariant
            i <= vals.len(),
            objs@.len() == i,
            forall|j: int| 0 <= j < i ==> from_json_spec(#[trigger] views[j]) is Ok,
            forall|j: int| 0 <= j < i ==> (#[trigger] objs@[j])@ == from_json_spec(views[j])->Ok_0,
        decreases vals@.len() - i,
    {
        match Obj::from_json(&vals[i]) {
            Ok(o) => {
                objs.push(o);
            },
            Err(e) => {
                proof {
                    assert(from_json_spec(views[i as int]) is Err);
                }
                return Err(e);
            },
        }
        i = i + 1;
    }
    proof {
        assert(objs@.map_values(|o: Obj| o@) =~= Seq::new(
            views.len(),
            |j: int| from_json_spec(views[j])->Ok_0,
        ));
    }
    Ok(objs)
}

/// What reading the literal pool out of an image yields. The scan starts
/// right after the watermark's NUL; a missing terminator or text that is
/// not an array is a format error, and a bad element is a value error.
pub open spec fn read_mem_spec(data: Seq<u8>) -> Result<Seq<ObjV>, LoadError> {
    match first_nul_from(data, 5) {
        None => Err(LoadError::InvalidMemoryFormat),
        Some(end) => match json_array_of(data.subrange(5, end)) {
            None => Err(LoadError::InvalidMemoryFormat),
            Some(vals) => decode_pool_spec(vals),
        },
    }
}

/// Read the literal pool out of an image, exactly as [`read_mem_spec`]
/// defines it. The watermark itself is not checked here.
pub fn read_mem(data: &Vec<u8>) -> (r: Result<Vec<Obj>, LoadError>)
    ensures
        match r {
            Ok(mem) => read_mem_spec(data@) == Ok::<Seq<ObjV>, LoadError>(
                mem@.map_values(|o: Obj| o@),
            ),
            Err(e) => read_mem_spec(data@) == Err::<Seq<ObjV>, LoadError>(e),
        },
{
    let end = match find_nul_from(data, WATERMARK_LEN) {
        None => {
            return Err(LoadError::InvalidMemoryFormat);
        },
        Some(end) => end,
    };
    let pool_text = vstd::slice::slice_to_vec(
        vstd::slice::slice_subrange(data.as_slice(), WATERMARK_LEN, end),
    );
    match parse_json_array(&pool_text) {
        None => Err(LoadError::InvalidMemoryFormat),
        Some(vals) => json_into_obj(vals),
    }
}

/// What reading the instruction region out of an image yields: every byte
/// strictly after the literal pool's terminating NUL, or the empty-region
/// error when no byte — or no terminator — follows it.
pub open spec fn read_instructions_spec(data: Seq<u8>) -> Result<Seq<u8>, LoadError> {
    match first_nul_from(data, 5) {
        None => Err(LoadError::EmptyInstructions),
        Some(end) => if end + 1 < data.len() {
            Ok(data.subrange(end + 1, data.len() as int))
        } else {
            Err(LoadError::EmptyInstructions)
        },
    }
}

/// Read the instruction region out of an image, exactly as
/// [`read_instructions_spec`] defines it.
pub fn read_instructions(data: &Vec<u8>) -> (r: Result<Vec<u8>, LoadError>)
    ensures
        match r {
            Ok(instructions) => read_instructions_spec(data@) == Ok::<Seq<u8>, LoadError>(
                instructions@,
            ) && instructions@.len() > 0,
            Err(e) => read_instructions_spec(data@) == Err::<Seq<u8>, LoadError>(e),
        },
{
    let end = match find_nul_from(data, WATERMARK_LEN) {
        None => {
            return Err(LoadError::EmptyInstructions);
        },
        Some(end) => end,
    };
    if end < data.len() - 1 {
        Ok(vstd::slice::slice_to_vec(
            vstd::slice::slice_subrange(data.as_slice(), end + 1, data.len()),
        ))
    } else {
        Err(LoadError::EmptyInstructions)
    }
}

/// What loading a whole image yields: the watermark is checked first, then
/// the literal pool is decoded, then the instruction region is taken, and
/// the first failure wins.
pub open spec fn load_spec(data: Seq<u8>) -> Result<(Seq<ObjV>, Seq<u8>), LoadError> {
    if !watermark_ok_spec(data) {
        Err(LoadError::BadWatermark)
    } else {
        match read_mem_spec(data) {
            Err(e) => Err(e),
            Ok(mem) => match read_instructions_spec(data) {
                Err(e) => Err(e),
                Ok(instructions) => Ok((mem, instructions)),
            },
        }
    }
}

/// Loading fails with the watermark error for exactly the buffers that do
/// not start with the magic sequence: any buffer that does start with it
/// passes that check, whatever else may still go wrong.
pub proof fn lemma_bad_watermark_iff_no_magic(data: Seq<u8>)
    ensures
        (load_spec(data) == Err::<(Seq<ObjV>, Seq<u8>), LoadError>(LoadError::BadWatermark))
            <==> !watermark_ok_spec(data),
{
}

/// An image whose instruction region holds even a single byte never draws
/// the empty-region error; one whose region holds zero bytes — or is
/// missing its opening NUL terminator — never loads, and when everything
/// before the region is well-formed that failure is the empty-region error
/// exactly.
pub proof fn lemma_empty_instructions_rejected(data: Seq<u8>)
    ensures
        read_instructions_spec(data) is Ok ==> load_spec(data) != Err::<
            (Seq<ObjV>, Seq<u8>),
            LoadError,
        >(LoadError::EmptyInstructions),
        read_instructions_spec(data) is Err ==> load_spec(data) is Err,
        (watermark_ok_spec(data) && read_mem_spec(data) is Ok) ==> (load_spec(data) == Err::<
            (Seq<ObjV>, Seq<u8>),
            LoadError,
        >(LoadError::EmptyInstructions) <==> read_instructions_spec(data) is Err),
{
}

} // verus!
