//! Model of the file write actor: the single logical owner of the output
//! file handle.  It accepts offset-addressed writes from any number of chunk
//! workers and a finalize request, applied one at a time.
//!
//! The actor writes into a temporary sibling of the destination (the
//! destination path with a `dd` extension), pre-sized to the full remote
//! length, and on finalize flushes it and renames it onto the destination.
//! The bytes of both files are modeled here; the surrounding process
//! performs the same operations on the real filesystem.

use vstd::prelude::*;

verus! {

use crate::error::DownloadError;
use crate::pathutil::spec_temp_path;
use crate::pathutil::temp_path_of;

/// The contents of a file of length `max(content.len(), offset + data.len())`
/// after seeking to `offset` and writing `data`: the bytes of `data` land at
/// `offset`, bytes before `offset` and after the written span keep their old
/// values, and any gap opened by seeking past the old end reads as zero.
pub open spec fn spec_write_at(content: Seq<u8>, offset: int, data: Seq<u8>) -> Seq<u8> {
    let newlen = if content.len() >= offset + data.len() {
        content.len() as int
    } else {
        offset + data.len()
    };
    Seq::new(
        newlen as nat,
        |i: int|
            if offset <= i && i < offset + data.len() {
                data[i - offset]
            } else if i < content.len() {
                content[i]
            } else {
                0u8
            },
    )
}

/// A write at `offset` touches only the span `[offset, offset + data.len())`:
/// every byte outside it keeps its value.  Deliveries write at the owning
/// worker's cursor, which only ever advances, so bytes durably written
/// before a suspend are never rewritten after a restart — the output is
/// byte-for-byte what an uninterrupted run of the same content writes.
pub proof fn lemma_write_at_preserves_outside(content: Seq<u8>, offset: int, data: Seq<u8>, k: int)
    requires
        0 <= k < content.len(),
        k < offset || k >= offset + data.len(),
    ensures
        spec_write_at(content, offset, data)[k] == content[k],
{
}

/// Seeks to `offset` in `buf` and writes `data`, growing `buf` (zero-filling
/// any gap) when the write runs past its end.
fn vec_write_at(buf: &mut Vec<u8>, offset: usize, data: &[u8])
    requires
        offset + data@.len() <= usize::MAX,
    ensures
        final(buf)@ == spec_write_at(old(buf)@, offset as int, data@),
{
    while buf.len() < offset
        invariant
            old(buf)@.len() <= buf@.len() <= vstd::math::max(old(buf)@.len() as int, offset as int),
            forall|i: int| 0 <= i < old(buf)@.len() ==> buf@[i] == old(buf)@[i],
            forall|i: int| old(buf)@.len() <= i < buf@.len() ==> buf@[i] == 0u8,
        decreases offset - buf.len(),
    {
        buf.push(0u8);
    }
    let n = data.len();
    let mut j: usize = 0;
    while j < n
        invariant
            n == data@.len(),
            offset + n <= usize::MAX,
            j <= n,
            buf@.len() == vstd::math::max(old(buf)@.len() as int, offset + j),
            forall|i: int| 0 <= i < offset && i < old(buf)@.len() ==> buf@[i] == old(buf)@[i],
            forall|i: int| offset <= i < offset + j ==> buf@[i] == data@[i - offset],
            forall|i: int| offset + j <= i < old(buf)@.len() ==> buf@[i] == old(buf)@[i],
            forall|i: int| old(buf)@.len() <= i < offset ==> buf@[i] == 0u8,
        decreases n - j,
    {
        if offset + j < buf.len() {
            buf[offset + j] = data[j];
        } else {
            buf.push(data[j]);
        }
        j = j + 1;
    }
    proof {
        assert(buf@ =~= spec_write_at(old(buf)@, offset as int, data@));
    }
}

/// The file write actor's state: the two paths, the target length, whether
/// the handle is open, the handle's seek position, and the modeled bytes of
/// the temporary and destination files.
pub struct FileSave {
    /// The temporary path written during the transfer.
    pub save_path: String,
    /// The destination path the temporary file is renamed to.
    pub real_path: String,
    /// The full remote length the temporary file is pre-sized to.
    pub len: u64,
    /// Whether the handle is open (between `init` and `finish`).
    pub opened: bool,
    /// The handle's current position: the end of the last write.
    pub pos: u64,
    /// Whether the temporary file currently exists.
    pub temp_exists: bool,
    /// Bytes of the temporary file while it exists.
    pub temp_data: Vec<u8>,
    /// Whether the destination file exists.
    pub real_exists: bool,
    /// Bytes of the destination file once it exists.
    pub real_data: Vec<u8>,
}

impl FileSave {
    /// Creates the actor for a download saved to `real_path`: derives the
    /// temporary sibling path and deletes any stale temporary file left by
    /// a prior run.  No file is open yet.
    pub fn create(real_path: String, len: u64) -> (r: FileSave)
        ensures
            r.save_path@ == spec_temp_path(real_path@),
            r.real_path == real_path,
            r.len == len,
            !r.opened,
            r.pos == 0,
            !r.temp_exists,
            r.temp_data@ == Seq::<u8>::empty(),
            !r.real_exists,
            r.real_data@ == Seq::<u8>::empty(),
    {
        let save_path = temp_path_of(real_path.as_str());
        FileSave {
            save_path,
            real_path,
            len,
            opened: false,
            pos: 0,
            temp_exists: false,
            temp_data: Vec::new(),
            real_exists: false,
            real_data: Vec::new(),
        }
    }

    /// Opens the temporary file and pre-sizes it to the target length, all
    /// bytes zero.  Called once by the orchestrator before any chunk work,
    /// on the fresh actor `create` returned.
    pub fn init(&mut self)
        requires
            old(self).len <= usize::MAX as u64,
            !old(self).opened,
            !old(self).temp_exists,
        ensures
            final(self).opened,
            final(self).temp_exists,
            final(self).temp_data@ == Seq::new(old(self).len as nat, |i: int| 0u8),
            final(self).pos == 0,
            final(self).save_path == old(self).save_path,
            final(self).real_path == old(self).real_path,
            final(self).len == old(self).len,
            final(self).real_exists == old(self).real_exists,
            final(self).real_data == old(self).real_data,
    {
        let n = self.len as usize;
        let mut data: Vec<u8> = Vec::new();
        let mut k: usize = 0;
        while k < n
            invariant
                k <= n,
                data@.len() == k,
                forall|i: int| 0 <= i < k ==> data@[i] == 0u8,
            decreases n - k,
        {
            data.push(0u8);
            k = k + 1;
        }
        proof {
            assert(data@ =~= Seq::new(self.len as nat, |i: int| 0u8));
        }
        self.temp_data = data;
        self.temp_exists = true;
        self.opened = true;
        self.pos = 0;
    }

    /// Seeks to `offset` and writes `data` into the temporary file.
    /// Succeeds exactly when the handle is still open; after `finish` (or
    /// before `init`) it fails with the file-already-finalized error and
    /// changes nothing.
    pub fn write_all_by_offset(&mut self, data: &[u8], offset: u64) -> (r: Result<
        (),
        DownloadError,
    >)
        requires
            offset + data@.len() <= usize::MAX as u64,
        ensures
            match r {
                Ok(_) => {
                    &&& old(self).opened
                    &&& final(self).temp_data@ == spec_write_at(
                        old(self).temp_data@,
                        offset as int,
                        data@,
                    )
                    &&& final(self).pos == offset + data@.len()
                    &&& *final(self) == (FileSave {
                        pos: final(self).pos,
                        temp_data: final(self).temp_data,
                        ..*old(self)
                    })
                },
                Err(e) => {
                    &&& !old(self).opened
                    &&& *final(self) == *old(self)
                    &&& (e matches DownloadError::SaveFileFinish { path } && path@ == old(
                        self,
                    ).real_path@)
                },
            },
    {
        if !self.opened {
            return Err(DownloadError::SaveFileFinish { path: self.real_path.clone() });
        }
        vec_write_at(&mut self.temp_data, offset as usize, data);
        self.pos = offset + data.len() as u64;
        Ok(())
    }

    /// Writes `data` at the handle's current position.  Succeeds exactly
    /// when the handle is still open.
    pub fn write_all(&mut self, data: &[u8]) -> (r: Result<(), DownloadError>)
        requires
            old(self).pos + data@.len() <= usize::MAX as u64,
        ensures
            match r {
                Ok(_) => {
                    &&& old(self).opened
                    &&& final(self).temp_data@ == spec_write_at(
                        old(self).temp_data@,
                        old(self).pos as int,
                        data@,
                    )
                    &&& final(self).pos == old(self).pos + data@.len()
                    &&& *final(self) == (FileSave {
                        pos: final(self).pos,
                        temp_data: final(self).temp_data,
                        ..*old(self)
                    })
                },
                Err(e) => {
                    &&& !old(self).opened
                    &&& *final(self) == *old(self)
                    &&& (e matches DownloadError::SaveFileFinish { path } && path@ == old(
                        self,
                    ).real_path@)
                },
            },
    {
        if !self.opened {
            return Err(DownloadError::SaveFileFinish { path: self.real_path.clone() });
        }
        let offset = self.pos;
        vec_write_at(&mut self.temp_data, offset as usize, data);
        self.pos = offset + data.len() as u64;
        Ok(())
    }

    /// Finalize: flush and close the handle, then rename the temporary file
    /// onto the destination.  A second call is a no-op, the handle being
    /// already absent.
    pub fn finish(&mut self)
        ensures
            old(self).opened ==> {
                &&& !final(self).opened
                &&& !final(self).temp_exists
                &&& final(self).real_exists
                &&& final(self).real_data@ == old(self).temp_data@
                &&& final(self).temp_data@ == Seq::<u8>::empty()
                &&& final(self).save_path == old(self).save_path
                &&& final(self).real_path == old(self).real_path
                &&& final(self).len == old(self).len
                &&& final(self).pos == old(self).pos
            },
            !old(self).opened ==> *final(self) == *old(self),
    {
        if self.opened {
            self.opened = false;
            self.temp_exists = false;
            let mut moved: Vec<u8> = Vec::new();
            core::mem::swap(&mut moved, &mut self.temp_data);
            self.real_data = moved;
            self.real_exists = true;
        }
    }

    /// The current temporary path.
    pub fn get_save_file_path(&self) -> (r: String)
        ensures
            r@ == self.save_path@,
    {
        self.save_path.clone()
    }

    /// The eventual destination path.
    pub fn get_real_file_path(&self) -> (r: String)
        ensures
            r@ == self.real_path@,
    {
        self.real_path.clone()
    }
}

} // verus!
