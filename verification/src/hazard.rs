//! A hazard channel: one atomic cell shared by exactly one [`Reader`] and one
//! [`Writer`].
//!
//! The cell holds one word. Three reserved words, the [`Sentinels`] that the
//! channel is made with, stand for the states *blocked*, *free* and *dead*;
//! every other word is the address that the writer currently protects. The
//! writer publishes with release ordering and the reader observes with acquire
//! ordering, so whatever the writer wrote before publishing is visible to a
//! reader that has seen the publication.
//!
//! What the cell holds at a given moment depends on the other thread, so the
//! contracts of the operations on the cell say what holds of every outcome.
//! The encoding itself is exact: [`Sentinels::encode`] and
//! [`Sentinels::decode`] are specified by [`Sentinels::encoded`] and
//! [`Sentinels::decoded`], and the laws at the end of this module relate what
//! a writer publishes to what a reader then makes of it.

use std::sync::atomic::AtomicUsize;
use std::sync::atomic::Ordering;
use std::sync::Arc;
use vstd::prelude::*;

verus! {

/// What a reader can learn from the channel.
#[derive(Debug, PartialEq, Eq, Structural)]
pub enum State {
    /// The writer protects no object.
    Free,
    /// The writer has given the channel up; nothing is protected any more and
    /// the reader may destroy the channel.
    Dead,
    /// The writer protects the object at this address. The null address is a
    /// protection like any other and differs from `Free`.
    Protect(usize),
}

/// The three reserved words of a channel. Whoever makes the channel picks
/// them, and picks addresses at which no object to protect can lie: those of
/// three bytes of its own that stay where they are.
#[derive(Clone, Copy, Debug, PartialEq, Eq, Structural)]
pub struct Sentinels {
    /// The word that stands for a blocked channel: nothing can be read yet.
    pub blocked: usize,
    /// The word that stands for a channel that protects nothing.
    pub free: usize,
    /// The word that stands for a channel whose writer is gone for good.
    pub dead: usize,
}

impl Sentinels {
    /// The three words differ from one another and none is the null address,
    /// so the four kinds of content share the cell without overlap and the
    /// null address can be protected.
    pub open spec fn valid(self) -> bool {
        &&& self.blocked != self.free
        &&& self.blocked != self.dead
        &&& self.free != self.dead
        &&& self.blocked != 0
        &&& self.free != 0
        &&& self.dead != 0
    }

    /// Whether `word` is one of the three reserved words.
    pub open spec fn reserves(self, word: usize) -> bool {
        word == self.blocked || word == self.free || word == self.dead
    }

    /// The contents that some word stands for: every content but the
    /// protection of a reserved word. `None` is the blocked channel.
    pub open spec fn representable(self, content: Option<State>) -> bool {
        content matches Some(State::Protect(addr)) ==> !self.reserves(addr)
    }

    /// The word that the cell holds for a content.
    pub open spec fn encoded(self, content: Option<State>) -> usize {
        match content {
            None => self.blocked,
            Some(State::Free) => self.free,
            Some(State::Dead) => self.dead,
            Some(State::Protect(addr)) => addr,
        }
    }

    /// The content that a word of the cell stands for.
    pub open spec fn decoded(self, word: usize) -> Option<State> {
        if word == self.blocked {
            None
        } else if word == self.free {
            Some(State::Free)
        } else if word == self.dead {
            Some(State::Dead)
        } else {
            Some(State::Protect(word))
        }
    }

    /// Tells whether the three words can serve a channel.
    pub fn is_valid(&self) -> (ok: bool)
        ensures
            ok == self.valid(),
    {
        self.blocked != self.free && self.blocked != self.dead && self.free != self.dead
            && self.blocked != 0 && self.free != 0 && self.dead != 0
    }

    /// Computes the word to store for a content.
    pub fn encode(&self, content: &Option<State>) -> (word: usize)
        ensures
            word == self.encoded(*content),
    {
        match content {
            None => self.blocked,
            Some(State::Free) => self.free,
            Some(State::Dead) => self.dead,
            Some(State::Protect(addr)) => *addr,
        }
    }

    /// Reads a word of the cell as a content.
    pub fn decode(&self, word: usize) -> (content: Option<State>)
        ensures
            content == self.decoded(word),
    {
        if word == self.blocked {
            None
        } else if word == self.free {
            Some(State::Free)
        } else if word == self.dead {
            Some(State::Dead)
        } else {
            Some(State::Protect(word))
        }
    }
}

/// Whether an observation allows the reader to destroy the channel: only a
/// dead channel may be destroyed.
pub open spec fn permits_destroy(seen: Option<State>) -> bool {
    seen == Some(State::Dead)
}

/// What becomes of a writer that is discarded without having been killed.
#[derive(Clone, Copy, Debug, PartialEq, Eq, Structural)]
pub enum Discard {
    /// The writer was dropped in the ordinary course: the caller broke the
    /// protocol and must not go on.
    Fatal,
    /// The writer was dropped while its thread unwinds from a panic: the
    /// channel is marked dead quietly, so that the first failure stays the
    /// one that is seen.
    MarkDead,
}

/// Decides what to do about a writer that is discarded without having been
/// killed, given whether its thread is unwinding from a panic.
pub fn writer_discarded(unwinding: bool) -> (act: Discard)
    ensures
        act == (if unwinding {
            Discard::MarkDead
        } else {
            Discard::Fatal
        }),
{
    if unwinding {
        Discard::MarkDead
    } else {
        Discard::Fatal
    }
}

/// Makes a new channel with the reserved words `words` and returns its two
/// ends, which share one cell. The channel starts blocked: the cell is made
/// holding `words.encoded(None)`.
pub fn create(words: Sentinels) -> (pair: (Reader, Writer))
    requires
        words.valid(),
    ensures
        pair.0.paired_with(&pair.1),
        pair.0.words() == words,
        pair.1.words() == words,
{
    let cell = Arc::new(AtomicUsize::new(words.encode(&None)));
    let shared = Arc::clone(&cell);
    (Reader { cell, words }, Writer { cell: shared, words })
}

/// The observing end of a channel.
#[derive(Debug)]
pub struct Reader {
    cell: Arc<AtomicUsize>,
    words: Sentinels,
}

impl Reader {
    /// The reserved words of this reader's channel.
    pub closed spec fn words(&self) -> Sentinels {
        self.words
    }

    /// Whether this reader and `writer` are the two ends of one channel.
    pub closed spec fn paired_with(&self, writer: &Writer) -> bool {
        self.cell == writer.cell && self.words == writer.words
    }

    /// Reads the cell until it is no longer blocked, at most `spins` times,
    /// and returns the state found; `None` when the channel was blocked at
    /// every read. A state that comes back never protects a reserved word.
    pub fn get(&self, spins: usize) -> (seen: Option<State>)
        ensures
            self.words().representable(seen),
            spins == 0 ==> seen is None,
    {
        let mut left: usize = spins;
        while left > 0
            invariant
                left <= spins,
            decreases left,
        {
            let content = self.words.decode(self.cell.load(Ordering::Acquire));
            if content.is_some() {
                return content;
            }
            left = left - 1;
        }
        None
    }

    /// Destroys the channel if one read of the cell finds it dead. Otherwise,
    /// and so while the channel is blocked, the channel stays and the reader
    /// comes back unchanged.
    pub fn destroy(self) -> (r: Result<(), Reader>)
        ensures
            r matches Err(back) ==> back == self,
    {
        let seen = self.get(1);
        self.destroy_seen(seen)
    }

    /// Decides on `seen`, the state last read from the channel, whether the
    /// channel is destroyed: it is exactly when that state is `Dead`.
    /// Otherwise the channel stays and the reader comes back unchanged.
    pub fn destroy_seen(self, seen: Option<State>) -> (r: Result<(), Reader>)
        ensures
            r is Ok <==> permits_destroy(seen),
            r matches Err(back) ==> back == self,
    {
        match seen {
            Some(State::Dead) => {
                self.destroy_observed(seen);
                Ok(())
            },
            _ => Err(self),
        }
    }

    /// Destroys the channel on the strength of `seen`, the state last read
    /// from it, which has to be `Dead`: a channel that was not seen dead is
    /// not destroyed.
    pub fn destroy_observed(self, seen: Option<State>)
        requires
            permits_destroy(seen),
    {
    }
}

/// The publishing end of a channel.
#[derive(Debug)]
pub struct Writer {
    cell: Arc<AtomicUsize>,
    words: Sentinels,
}

impl Writer {
    /// The reserved words of this writer's channel.
    pub closed spec fn words(&self) -> Sentinels {
        self.words
    }

    /// Stores the word of `content` in the cell.
    fn publish(&self, content: Option<State>) {
        self.cell.store(self.words.encode(&content), Ordering::Release);
    }

    /// Whether one read of the cell finds the channel blocked.
    pub fn is_blocked(&self) -> (blocked: bool) {
        self.words.decode(self.cell.load(Ordering::Acquire)).is_none()
    }

    /// Blocks the channel: readers wait until the state changes again.
    pub fn block(&self) {
        self.publish(None);
    }

    /// Publishes that nothing is protected.
    pub fn free(&self) {
        self.publish(Some(State::Free));
    }

    /// Publishes that the object at `addr` is protected. The word stored is
    /// `addr` itself, so a reserved word reads as the state it stands for.
    pub fn protect(&self, addr: usize) {
        self.publish(Some(State::Protect(addr)));
    }

    /// Publishes that the channel is dead.
    fn dead(&self) {
        self.publish(Some(State::Dead));
    }

    /// Gives the channel up: publishes that it is dead and consumes the
    /// writer, so that nothing can be published after it.
    pub fn kill(self) {
        self.dead();
    }
}

/// A reader makes of a published word exactly the content that the writer
/// published, for every content that a word stands for.
pub proof fn lemma_decoded_encoded(words: Sentinels, content: Option<State>)
    requires
        words.valid(),
        words.representable(content),
    ensures
        words.decoded(words.encoded(content)) == content,
{
}

/// Every word stands for exactly one content, and that content is
/// representable: the four kinds of content share the cell without overlap.
pub proof fn lemma_encoded_decoded(words: Sentinels, word: usize)
    ensures
        words.representable(words.decoded(word)),
        words.encoded(words.decoded(word)) == word,
{
}

/// A new channel holds the blocked word, and the blocked word is the only one
/// from which a reader gets no state.
pub proof fn lemma_blocked(words: Sentinels, word: usize)
    ensures
        words.encoded(None) == words.blocked,
        words.decoded(word) is None <==> word == words.blocked,
{
}

/// What a reader makes of the word that `free` publishes is `Free`. The word
/// does not depend on what the cell held before, so freeing again changes
/// nothing.
pub proof fn lemma_free_seen(words: Sentinels)
    requires
        words.valid(),
    ensures
        words.decoded(words.encoded(Some(State::Free))) == Some(State::Free),
{
}

/// What a reader makes of the word that `protect` publishes for an address
/// that is not reserved is the protection of that very address. The null
/// address is never reserved.
pub proof fn lemma_protect_seen(words: Sentinels, addr: usize)
    requires
        words.valid(),
        !words.reserves(addr),
    ensures
        words.decoded(words.encoded(Some(State::Protect(addr)))) == Some(State::Protect(addr)),
        !words.reserves(0),
{
}

/// What a reader makes of the word that `kill` publishes is `Dead`.
pub proof fn lemma_dead_seen(words: Sentinels)
    requires
        words.valid(),
    ensures
        words.decoded(words.encoded(Some(State::Dead))) == Some(State::Dead),
{
}

/// The dead word is the only one whose observation allows the reader to
/// destroy the channel.
pub proof fn lemma_destroy_only_dead(words: Sentinels, word: usize)
    requires
        words.valid(),
    ensures
        permits_destroy(words.decoded(word)) <==> word == words.dead,
{
}

} // verus!
