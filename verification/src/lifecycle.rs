//! The decisions of the emulator handle: creating a core, looking up its
//! entry points, loading a ROM, and reading audio. The calls into libmgba
//! themselves are made by the caller, which reports their outcome here.

use vstd::prelude::*;

use crate::error::CoreError;

verus! {

/// A null-terminated C string can be made from `bytes` exactly when no byte
/// of it is zero.
pub open spec fn c_string_compatible(bytes: Seq<u8>) -> bool {
    !bytes.contains(0u8)
}

/// A byte string is a valid C string exactly when none of its bytes is zero;
/// no other byte is refused.
pub proof fn lemma_c_string_iff_no_zero_byte(bytes: Seq<u8>)
    ensures
        c_string_compatible(bytes) <==> (forall|i: int| 0 <= i < bytes.len() ==> bytes[i] != 0u8),
        forall|b: u8| b != 0u8 ==> c_string_compatible(seq![b]),
        c_string_compatible(Seq::<u8>::empty()),
{
    if c_string_compatible(bytes) {
        assert forall|i: int| 0 <= i < bytes.len() implies bytes[i] != 0u8 by {
            if bytes[i] == 0u8 {
                assert(bytes.contains(0u8));
            }
        }
    }
    assert forall|b: u8| b != 0u8 implies c_string_compatible(seq![b]) by {
        if seq![b].contains(0u8) {
            let k = choose|k: int| 0 <= k < seq![b].len() && seq![b][k] == 0u8;
            assert(seq![b][k] == b);
        }
    }
}

/// Check that `bytes` can be handed to libmgba as a C string.
///
/// Port names and ROM paths are passed to the C library null-terminated;
/// an interior zero byte is refused with [`CoreError::InvalidPath`].
pub fn check_c_string(bytes: &[u8]) -> (r: Result<(), CoreError>)
    ensures
        r is Ok <==> c_string_compatible(bytes@),
        r is Ok <==> (forall|i: int| 0 <= i < bytes@.len() ==> bytes@[i] != 0u8),
        r is Err ==> r == Err::<(), CoreError>(CoreError::InvalidPath),
{
    let n = bytes.len();
    let mut i: usize = 0;
    while i < n
        invariant
            n == bytes@.len(),
            i <= n,
            forall|j: int| 0 <= j < i ==> bytes@[j] != 0u8,
        decreases n - i,
    {
        if bytes[i] == 0 {
            assert(bytes@.contains(0u8)) by {
                assert(bytes@[i as int] == 0u8);
            }
            return Err(CoreError::InvalidPath);
        }
        i = i + 1;
    }
    Ok(())
}

/// Check a ROM path before it is handed to libmgba.
///
/// `path` is the path's text, or `None` where the path is not valid UTF-8.
/// Either fault gives [`CoreError::InvalidPath`].
pub fn check_rom_path(path: Option<&[u8]>) -> (r: Result<(), CoreError>)
    ensures
        r is Ok <==> (path matches Some(p) && c_string_compatible(p@)),
        r is Ok <==> (path matches Some(p) && forall|i: int| 0 <= i < p@.len() ==> p@[i] != 0u8),
        r is Err ==> r == Err::<(), CoreError>(CoreError::InvalidPath),
{
    match path {
        Some(p) => check_c_string(p),
        None => Err(CoreError::InvalidPath),
    }
}

/// Take an entry of the core's function table, failing with
/// [`CoreError::MissingFunction`] where the entry is null.
pub fn vtable<F>(f: Option<F>) -> (r: Result<F, CoreError>)
    ensures
        match f {
            Some(g) => r == Ok::<F, CoreError>(g),
            None => r == Err::<F, CoreError>(CoreError::MissingFunction),
        },
{
    match f {
        Some(g) => Ok(g),
        None => Err(CoreError::MissingFunction),
    }
}

/// Whether a ROM has been loaded into a core.
///
/// A core starts with no ROM; a successful load marks it loaded for good,
/// and a failed load leaves the mark as it was.
#[derive(Debug, Clone, Copy, PartialEq, Eq, Structural)]
pub struct RomState {
    loaded: bool,
}

impl View for RomState {
    type V = bool;

    closed spec fn view(&self) -> bool {
        self.loaded
    }
}

impl RomState {
    /// The state of a freshly created core: no ROM loaded.
    pub fn new() -> (s: Self)
        ensures
            !s@,
    {
        RomState { loaded: false }
    }

    /// Returns `true` if a ROM has been successfully loaded.
    pub fn is_loaded(&self) -> (b: bool)
        ensures
            b == self@,
    {
        self.loaded
    }

    /// Record the outcome of handing a checked ROM path to libmgba:
    /// `load_succeeded` is what the library's load call returned.
    pub fn finish_load(&mut self, load_succeeded: bool) -> (r: Result<(), CoreError>)
        ensures
            final(self)@ == (old(self)@ || load_succeeded),
            r is Ok <==> load_succeeded,
            r is Err ==> r == Err::<(), CoreError>(CoreError::RomLoadFailed),
    {
        if !load_succeeded {
            return Err(CoreError::RomLoadFailed);
        }
        self.loaded = true;
        Ok(())
    }
}

/// The number of stereo sample pairs to take from an audio buffer holding
/// `available` pairs into an output of `out_len` samples: as many as are
/// available and fit, two samples per pair.
pub open spec fn audio_pairs_to_read(available: nat, out_len: nat) -> nat {
    if available <= out_len / 2 {
        available
    } else {
        out_len / 2
    }
}

/// The pairs to read are the most that are available and fit: no more than
/// are available, no more than `out_len` samples, and either all that are
/// available or as many as fit (one more pair would overrun the output).
pub proof fn lemma_audio_pairs_most_that_fit(available: nat, out_len: nat)
    ensures
        audio_pairs_to_read(available, out_len) <= available,
        2 * audio_pairs_to_read(available, out_len) <= out_len,
        audio_pairs_to_read(available, out_len) == available
            || 2 * audio_pairs_to_read(available, out_len) + 2 > out_len,
        audio_pairs_to_read(available, out_len) == 0 <==> (available == 0 || out_len < 2),
{
}

/// Decide how many stereo pairs to read from the core's audio buffer.
///
/// `None` means that nothing is to be read (the buffer is empty or `out`
/// has room for no pair), and the read returns 0 without calling libmgba.
/// `Some(n)` asks for `n` pairs, which never overruns `out` nor exceeds what
/// is available.
pub fn audio_read_len(available: usize, out_len: usize) -> (r: Option<usize>)
    ensures
        audio_pairs_to_read(available as nat, out_len as nat) == 0 ==> r is None,
        audio_pairs_to_read(available as nat, out_len as nat) > 0 ==> r == Some(
            audio_pairs_to_read(available as nat, out_len as nat) as usize,
        ),
        r matches Some(n) ==> 0 < n && n <= available && 2 * n <= out_len,
        r matches Some(n) ==> n == available || n == out_len / 2,
        r is None <==> (available == 0 || out_len < 2),
{
    let room = out_len / 2;
    let to_read = if available <= room {
        available
    } else {
        room
    };
    if to_read == 0 {
        None
    } else {
        Some(to_read)
    }
}

} // verus!
