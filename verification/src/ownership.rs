//! A model of single-owner values and of the borrow discipline.
//!
//! Owned heap-backed text sits behind a single-owner handle: moving
//! the value out invalidates the source handle, and every later access
//! checks the liveness flag, so a moved-from binding can never hand
//! out a stale value. Borrows of one owned value are tracked by a
//! guard that grants many shared borrows or one exclusive borrow,
//! never both at once.

use vstd::prelude::*;

verus! {

/// What a handle looks like to specifications: whether the binding is
/// still the live owner, and the text it owns.
pub struct HandleModel {
    pub live: bool,
    pub text: Seq<u8>,
}

/// A single-owner handle to heap-backed text. Transferring ownership
/// invalidates the source handle; every access checks the liveness
/// flag first.
pub struct Handle {
    live: bool,
    text: Vec<u8>,
}

impl View for Handle {
    type V = HandleModel;

    closed spec fn view(&self) -> HandleModel {
        HandleModel { live: self.live, text: self.text@ }
    }
}

/// The source handle after its value has been moved out: no longer
/// live, with nothing left in it.
pub open spec fn moved_source(h: HandleModel) -> HandleModel {
    HandleModel { live: false, text: Seq::<u8>::empty() }
}

/// What reading through a handle yields: the owned text while the
/// handle is live, nothing once it has been invalidated.
pub open spec fn read_of(h: HandleModel) -> Option<Seq<u8>> {
    if h.live {
        Some(h.text)
    } else {
        None
    }
}

/// Once ownership has moved out of a binding, any use of that binding
/// yields nothing: the source is invalid, never a stale duplicate.
pub proof fn lemma_move_then_use(h: HandleModel)
    ensures
        read_of(moved_source(h)) is None,
{
}

impl Handle {
    /// Takes ownership of `text` and becomes its live owner.
    pub fn new(text: Vec<u8>) -> (h: Handle)
        ensures
            h@.live,
            h@.text == text@,
    {
        Handle { live: true, text }
    }

    /// Moves the owned value into a fresh handle; the source handle is
    /// invalidated and keeps nothing.
    pub fn transfer(&mut self) -> (b: Handle)
        requires
            old(self)@.live,
        ensures
            final(self)@ == moved_source(old(self)@),
            b@.live,
            b@.text == old(self)@.text,
    {
        let mut b = Handle { live: false, text: Vec::new() };
        core::mem::swap(self, &mut b);
        b
    }

    /// Reads through the handle: the owned text while live, nothing
    /// once the value has been moved out.
    pub fn read(&self) -> (r: Option<&Vec<u8>>)
        ensures
            match r {
                Some(v) => read_of(self@) == Some(v@),
                None => read_of(self@) is None,
            },
    {
        if self.live {
            Some(&self.text)
        } else {
            None
        }
    }

    /// Deep-duplicates the owned text into an independent second
    /// handle; the source stays live and usable.
    pub fn duplicate(&self) -> (r: Option<Handle>)
        ensures
            (r is Some) == self@.live,
            r matches Some(h) ==> h@.live && h@.text == self@.text,
    {
        if !self.live {
            return None;
        }
        let n = self.text.len();
        let mut copy: Vec<u8> = Vec::new();
        let mut i: usize = 0;
        while i < n
            invariant
                i <= n,
                n == self.text@.len(),
                copy@ == self.text@.subrange(0, i as int),
            decreases n - i,
        {
            copy.push(self.text[i]);
            assert(copy@ =~= self.text@.subrange(0, i + 1));
            i = i + 1;
        }
        assert(copy@ =~= self.text@);
        Some(Handle { live: true, text: copy })
    }

    /// Consumes the handle, releasing the owned text to the caller;
    /// ownership transfers into this call, so the binding it came from
    /// is gone afterwards.
    pub fn into_text(self) -> (r: Option<Vec<u8>>)
        ensures
            (r is Some) == self@.live,
            r matches Some(v) ==> v@ == self@.text,
    {
        if self.live {
            Some(self.text)
        } else {
            None
        }
    }

    /// An immutable borrow: derives the text's length without taking
    /// ownership, so the value stays usable at the caller.
    pub fn borrowed_len(&self) -> (r: Option<usize>)
        ensures
            (r is Some) == self@.live,
            r matches Some(n) ==> n == self@.text.len(),
    {
        if self.live {
            Some(self.text.len())
        } else {
            None
        }
    }

    /// A mutable borrow: appends to the owned text in place. Reports
    /// whether the handle was live; an invalidated handle is left
    /// unchanged.
    pub fn append(&mut self, suffix: &[u8]) -> (ok: bool)
        requires
            old(self)@.text.len() + suffix@.len() <= usize::MAX,
        ensures
            ok == old(self)@.live,
            ok ==> final(self)@.live && final(self)@.text == old(self)@.text + suffix@,
            !ok ==> final(self)@ == old(self)@,
    {
        if !self.live {
            return false;
        }
        let n = suffix.len();
        let mut i: usize = 0;
        while i < n
            invariant
                i <= n,
                n == suffix@.len(),
                self.live,
                old(self)@.text.len() + suffix@.len() <= usize::MAX,
                self.text@ == old(self)@.text + suffix@.subrange(0, i as int),
            decreases n - i,
        {
            self.text.push(suffix[i]);
            assert(self.text@ =~= old(self)@.text + suffix@.subrange(0, i + 1));
            i = i + 1;
        }
        assert(self.text@ =~= old(self)@.text + suffix@);
        true
    }
}

/// Two independently usable values out of one, for trivially-copyable
/// stack-only data: plain assignment duplicates, no explicit clone.
pub fn duplicate_copy(x: u64) -> (pair: (u64, u64))
    ensures
        pair.0 == x,
        pair.1 == x,
{
    let y = x;
    (x, y)
}

/// The borrow bookkeeping of one owned value, as specifications see
/// it: how many shared and how many exclusive borrows are live.
pub struct BorrowCounts {
    pub readers: nat,
    pub writers: nat,
}

/// The borrow discipline: at most one exclusive borrow, and never an
/// exclusive borrow beside any shared borrow.
pub open spec fn borrows_wf(c: BorrowCounts) -> bool {
    c.writers <= 1 && (c.writers == 1 ==> c.readers == 0)
}

/// For one owned value the discipline never admits two exclusive
/// borrows, nor an exclusive and a shared borrow, live at once.
pub proof fn lemma_exclusive_borrow(c: BorrowCounts)
    requires
        borrows_wf(c),
    ensures
        c.writers <= 1,
        !(c.writers >= 1 && c.readers >= 1),
{
}

/// Tracks the borrows of one owned value and enforces the discipline
/// at acquisition time: many readers or one writer, never both.
pub struct BorrowTracker {
    readers: usize,
    writers: usize,
}

impl View for BorrowTracker {
    type V = BorrowCounts;

    closed spec fn view(&self) -> BorrowCounts {
        BorrowCounts { readers: self.readers as nat, writers: self.writers as nat }
    }
}

impl BorrowTracker {
    /// A fresh tracker: no borrows are live.
    pub fn new() -> (t: BorrowTracker)
        ensures
            t@.readers == 0,
            t@.writers == 0,
            borrows_wf(t@),
    {
        BorrowTracker { readers: 0, writers: 0 }
    }

    /// Tries to take a shared borrow: granted exactly when no
    /// exclusive borrow is live and the reader count has room.
    pub fn acquire_shared(&mut self) -> (ok: bool)
        requires
            borrows_wf(old(self)@),
        ensures
            borrows_wf(final(self)@),
            ok == (old(self)@.writers == 0 && old(self)@.readers < usize::MAX),
            ok ==> final(self)@ == (BorrowCounts {
                readers: old(self)@.readers + 1,
                writers: old(self)@.writers,
            }),
            !ok ==> final(self)@ == old(self)@,
    {
        if self.writers == 0 && self.readers < usize::MAX {
            self.readers = self.readers + 1;
            true
        } else {
            false
        }
    }

    /// Tries to take the exclusive borrow: granted exactly when no
    /// borrow of any kind is live.
    pub fn acquire_exclusive(&mut self) -> (ok: bool)
        requires
            borrows_wf(old(self)@),
        ensures
            borrows_wf(final(self)@),
            ok == (old(self)@.writers == 0 && old(self)@.readers == 0),
            ok ==> final(self)@ == (BorrowCounts { readers: 0, writers: 1 }),
            !ok ==> final(self)@ == old(self)@,
    {
        if self.writers == 0 && self.readers == 0 {
            self.writers = 1;
            true
        } else {
            false
        }
    }

    /// Releases one shared borrow at scope exit.
    pub fn release_shared(&mut self)
        requires
            borrows_wf(old(self)@),
            old(self)@.readers >= 1,
        ensures
            borrows_wf(final(self)@),
            final(self)@ == (BorrowCounts {
                readers: (old(self)@.readers - 1) as nat,
                writers: old(self)@.writers,
            }),
    {
        self.readers = self.readers - 1;
    }

    /// Releases the exclusive borrow at scope exit.
    pub fn release_exclusive(&mut self)
        requires
            borrows_wf(old(self)@),
            old(self)@.writers == 1,
        ensures
            borrows_wf(final(self)@),
            final(self)@ == (BorrowCounts { readers: old(self)@.readers, writers: 0 }),
    {
        self.writers = 0;
    }
}

} // verus!
