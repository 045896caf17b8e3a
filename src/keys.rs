use crate::error::{is_syscall_error, MapError};
use crate::handle::RawFd;
use crate::sock_map::SysResult;
use vstd::prelude::*;

verus! {

/// An enumeration of the keys of a map, one kernel call at a time.
///
/// Each step asks the key enumerator for the key after the last one handed
/// out (for the first key when none was). The enumeration ends at the first
/// empty reply or the first failure.
///
/// The kernel takes no snapshot: when another writer changes the map while
/// an enumeration runs, the keys handed out may be partial, repeated or
/// inconsistent.
pub struct MapKeys {
    fd: RawFd,
    key: Option<u32>,
    done: bool,
}

impl MapKeys {
    /// The descriptor of the map being enumerated.
    pub closed spec fn fd(&self) -> RawFd {
        self.fd
    }

    /// The last key handed out, if any.
    pub closed spec fn last_key(&self) -> Option<u32> {
        self.key
    }

    /// The enumeration has ended.
    pub closed spec fn is_done(&self) -> bool {
        self.done
    }

    /// The enumeration of the map with descriptor `fd` has not begun.
    pub open spec fn is_fresh(&self, fd: RawFd) -> bool {
        &&& self.fd() == fd
        &&& self.last_key() is None
        &&& !self.is_done()
    }

    /// The state after the enumerator answered `reply`.
    pub closed spec fn after(self, reply: SysResult<Option<u32>>) -> MapKeys {
        match reply {
            Ok(Some(k)) => MapKeys { key: Some(k), ..self },
            Ok(None) => MapKeys { key: None, done: true, ..self },
            Err(_) => MapKeys { done: true, ..self },
        }
    }

    /// The state after the enumerator answered each of `replies` in turn;
    /// once the enumeration has ended, further replies change nothing.
    pub open spec fn after_all(self, replies: Seq<SysResult<Option<u32>>>) -> MapKeys
        decreases replies.len(),
    {
        if replies.len() == 0 || self.is_done() {
            self
        } else {
            self.after(replies[0]).after_all(replies.drop_first())
        }
    }

    /// Starts an enumeration of the map with descriptor `fd`.
    pub fn new(fd: RawFd) -> (r: MapKeys)
        ensures
            r.is_fresh(fd),
    {
        MapKeys { fd, key: None, done: false }
    }

    /// Takes one step of the enumeration.
    ///
    /// When it has ended, returns `None` and calls nothing. Otherwise calls
    /// `get_next_key` once with the map's descriptor and the last key handed
    /// out, and returns the key it reports, `None` when it reports none, or
    /// a `SyscallError` named `"get_next_key"` for a failure.
    pub fn next<F>(&mut self, get_next_key: F) -> (r: Option<Result<u32, MapError>>) where
        F: FnOnce(RawFd, Option<u32>) -> SysResult<Option<u32>>,
        requires
            !old(self).is_done() ==> get_next_key.requires((old(self).fd(), old(self).last_key())),
        ensures
            old(self).is_done() ==> r is None && *final(self) == *old(self),
            !old(self).is_done() ==> exists|reply: SysResult<Option<u32>>|
                #[trigger] get_next_key.ensures((old(self).fd(), old(self).last_key()), reply)
                    && *final(self) == old(self).after(reply) && yields(r, reply)
                    && final(self).fd() == old(self).fd() && match reply {
                    Ok(Some(k)) => final(self).last_key() == Some(k) && !final(self).is_done(),
                    _ => final(self).is_done(),
                },
    {
        if self.done {
            return None;
        }
        match get_next_key(self.fd, self.key) {
            Ok(Some(k)) => {
                self.key = Some(k);
                Some(Ok(k))
            },
            Ok(None) => {
                self.key = None;
                self.done = true;
                None
            },
            Err((code, io_error)) => {
                self.done = true;
                Some(Err(MapError::SyscallError { call: "get_next_key".to_owned(), code, io_error }))
            },
        }
    }
}

/// `r` is what one step hands out when the enumerator answered `reply`.
pub open spec fn yields(r: Option<Result<u32, MapError>>, reply: SysResult<Option<u32>>) -> bool {
    match reply {
        Ok(Some(k)) => r == Some(Ok::<u32, MapError>(k)),
        Ok(None) => r is None,
        Err((code, io_error)) => r is Some && r->0 is Err && is_syscall_error(
            r->0->Err_0,
            "get_next_key"@,
            code,
            io_error,
        ),
    }
}

/// The enumerator's replies that report the keys `ks` one by one.
pub open spec fn key_replies(ks: Seq<u32>) -> Seq<SysResult<Option<u32>>> {
    ks.map_values(|k: u32| Ok::<Option<u32>, (i64, std::io::Error)>(Some(k)))
}

proof fn lemma_after_all_append(
    c: MapKeys,
    a: Seq<SysResult<Option<u32>>>,
    b: Seq<SysResult<Option<u32>>>,
)
    ensures
        c.after_all(a + b) == c.after_all(a).after_all(b),
    decreases a.len(),
{
    if a.len() == 0 {
        assert(a + b =~= b);
    } else if c.is_done() {
        lemma_after_all_done(c, b);
        lemma_after_all_done(c, a + b);
    } else {
        assert((a + b).drop_first() =~= a.drop_first() + b);
        lemma_after_all_append(c.after(a[0]), a.drop_first(), b);
    }
}

proof fn lemma_after_all_done(c: MapKeys, replies: Seq<SysResult<Option<u32>>>)
    requires
        c.is_done(),
    ensures
        c.after_all(replies) == c,
{
}

proof fn lemma_after_reported_keys(c: MapKeys, ks: Seq<u32>)
    requires
        !c.is_done(),
    ensures
        c.after_all(key_replies(ks)) == (MapKeys {
            key: if ks.len() == 0 {
                c.key
            } else {
                Some(ks.last())
            },
            ..c
        }),
    decreases ks.len(),
{
    if ks.len() > 0 {
        assert(key_replies(ks).drop_first() =~= key_replies(ks.drop_first()));
        lemma_after_reported_keys(c.after(key_replies(ks)[0]), ks.drop_first());
    }
}

/// Answered with the keys `ks` one by one, an enumeration that has not begun
/// hands out each of them in turn, each time asking for the key after the
/// one it handed out last, and ends at the first empty reply. Two
/// enumerations of one map started afresh go through the same states on the
/// same replies.
pub proof fn lemma_enumeration_of_reported_keys(c: MapKeys, d: MapKeys, fd: RawFd, ks: Seq<u32>)
    requires
        c.is_fresh(fd),
        d.is_fresh(fd),
    ensures
        forall|j: int|
            0 < j <= ks.len() ==> {
                let s = #[trigger] c.after_all(key_replies(ks.take(j)));
                &&& s.fd() == fd
                &&& s.last_key() == Some(ks[j - 1])
                &&& !s.is_done()
            },
        c.after_all(key_replies(ks).push(Ok(None))).is_done(),
        forall|replies: Seq<SysResult<Option<u32>>>| #[trigger]
            c.after_all(replies) == d.after_all(replies),
{
    assert forall|j: int| 0 < j <= ks.len() implies {
        let s = #[trigger] c.after_all(key_replies(ks.take(j)));
        &&& s.fd() == fd
        &&& s.last_key() == Some(ks[j - 1])
        &&& !s.is_done()
    } by {
        lemma_after_reported_keys(c, ks.take(j));
    }
    let none = seq![Ok::<Option<u32>, (i64, std::io::Error)>(None)];
    assert(key_replies(ks).push(Ok(None)) =~= key_replies(ks) + none);
    lemma_after_all_append(c, key_replies(ks), none);
    lemma_after_reported_keys(c, ks);
    let s = c.after_all(key_replies(ks));
    assert(s.after_all(none) == s.after(none[0]).after_all(none.drop_first()));
    assert(c == d);
}

} // verus!
