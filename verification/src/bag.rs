//! 7-bag randomizer (guideline): pieces come in bags holding each kind once.

use vstd::prelude::*;
use crate::piece::PieceKind;
use rand::rngs::ThreadRng;
use rand::seq::SliceRandom;

verus! {

broadcast use vstd::seq_lib::group_to_multiset_ensures;

#[verifier::external_type_specification]
#[verifier::external_body]
pub struct ExThreadRng(ThreadRng);

/// `rand::thread_rng`: a handle on the thread-local generator. Nothing is
/// promised of the handle; it only feeds `shuffle_kinds`. The call panics
/// only when the operating system's random source cannot seed the generator,
/// which no argument can rule out.
#[verifier::external_body]
fn thread_rng() -> ThreadRng {
    rand::thread_rng()
}

/// `SliceRandom::shuffle` on the vector's slice: a Fisher-Yates sequence of
/// swaps, so the elements (and their number) are kept and only their order
/// changes. Which order comes out rests on the generator and is not stated.
/// Drawing from the generator can panic only when it must reseed and the
/// operating system's random source fails, which no argument can rule out.
#[verifier::external_body]
fn shuffle_kinds(v: &mut Vec<PieceKind>, rng: &mut ThreadRng)
    ensures
        final(v)@.to_multiset() == old(v)@.to_multiset(),
{
    v.shuffle(rng);
}

/// The seven kinds in their canonical order.
pub open spec fn spec_all_kinds() -> Seq<PieceKind> {
    seq![
        PieceKind::I,
        PieceKind::O,
        PieceKind::T,
        PieceKind::S,
        PieceKind::Z,
        PieceKind::J,
        PieceKind::L,
    ]
}

/// One bag: seven pieces holding every kind (hence each exactly once).
pub open spec fn is_bag(s: Seq<PieceKind>) -> bool {
    s.len() == 7 && forall|k: PieceKind| #[trigger] s.contains(k)
}

/// The `i`-th block of seven pieces.
pub open spec fn bag_at(s: Seq<PieceKind>, i: int) -> Seq<PieceKind> {
    s.subrange(7 * i, 7 * i + 7)
}

/// `s` is a concatenation of whole bags.
pub open spec fn all_bags(s: Seq<PieceKind>) -> bool {
    s.len() % 7 == 0 && forall|i: int| 0 <= i < s.len() / 7 ==> is_bag(#[trigger] bag_at(s, i))
}

/// Taking one piece off the queue `q`: the piece is the head; when fewer than
/// seven pieces were queued, a fresh bag was appended first.
#[verifier::opaque]
pub open spec fn spec_deal(q: Seq<PieceKind>, q2: Seq<PieceKind>, r: PieceKind) -> bool {
    &&& q.len() >= 1
    &&& r == q[0]
    &&& q.len() >= 7 ==> q2 == q.drop_first()
    &&& q.len() < 7 ==> exists|b: Seq<PieceKind>| is_bag(b) && q2 == (q + b).drop_first()
}

proof fn lemma_all_bags_append(s: Seq<PieceKind>, b: Seq<PieceKind>)
    requires
        all_bags(s),
        is_bag(b),
    ensures
        all_bags(s + b),
{
    let t = s + b;
    let n = s.len() / 7;
    assert(t.len() / 7 == n + 1);
    assert forall|i: int| 0 <= i < t.len() / 7 implies is_bag(#[trigger] bag_at(t, i)) by {
        if i < n {
            assert(bag_at(t, i) =~= bag_at(s, i));
        } else {
            assert(bag_at(t, i) =~= b);
        }
    }
}

/// The bag generator's law: every complete block of seven consecutive pieces
/// dealt from the start holds each of the seven kinds exactly once.
pub proof fn lemma_dealt_in_bags(bag: SevenBag, i: int)
    requires
        bag.wf(),
        0 <= i,
        7 * i + 7 <= bag.dealt().len(),
    ensures
        is_bag(bag_at(bag.dealt(), i)),
{
    let all = bag.dealt() + bag@;
    assert(all.len() / 7 > i);
    assert(is_bag(bag_at(all, i)));
    assert(bag_at(all, i) =~= bag_at(bag.dealt(), i));
}

pub struct SevenBag {
    bag: Vec<PieceKind>,
    queue: Vec<PieceKind>,
    /// Every piece handed out so far, oldest first.
    dealt: Ghost<Seq<PieceKind>>,
}

impl View for SevenBag {
    type V = Seq<PieceKind>;

    /// The queue of upcoming pieces, next first.
    closed spec fn view(&self) -> Seq<PieceKind> {
        self.queue@
    }
}

impl SevenBag {
    /// The pieces handed out so far, oldest first.
    pub closed spec fn dealt(&self) -> Seq<PieceKind> {
        self.dealt@
    }

    /// The dealt pieces followed by the queue form whole bags, and the queue
    /// never runs low enough to be empty at the next draw.
    pub closed spec fn wf(&self) -> bool {
        &&& all_bags(self.dealt@ + self.queue@)
        &&& self.queue@.len() >= 6
        &&& self.bag@.len() == 0
    }

    /// Put a freshly shuffled bag in `self.bag`.
    fn refill_bag(&mut self)
        ensures
            is_bag(final(self).bag@),
            final(self).queue == old(self).queue,
            final(self).dealt == old(self).dealt,
    {
        self.bag = vec![
            PieceKind::I,
            PieceKind::O,
            PieceKind::T,
            PieceKind::S,
            PieceKind::Z,
            PieceKind::J,
            PieceKind::L,
        ];
        let ghost before = self.bag@;
        assert(before =~= spec_all_kinds());
        let mut rng = thread_rng();
        shuffle_kinds(&mut self.bag, &mut rng);
        proof {
            assert(self.bag@.len() == self.bag@.to_multiset().len());
            assert(before.len() == before.to_multiset().len());
            assert forall|k: PieceKind| #[trigger] self.bag@.contains(k) by {
                assert(before.contains(k)) by {
                    match k {
                        PieceKind::I => assert(before[0] == k),
                        PieceKind::O => assert(before[1] == k),
                        PieceKind::T => assert(before[2] == k),
                        PieceKind::S => assert(before[3] == k),
                        PieceKind::Z => assert(before[4] == k),
                        PieceKind::J => assert(before[5] == k),
                        PieceKind::L => assert(before[6] == k),
                    }
                }
                assert(before.to_multiset().count(k) > 0);
            }
        }
    }

    /// A bag generator with two shuffled bags queued.
    pub fn new() -> (r: Self)
        ensures
            r.wf(),
            r.dealt() == Seq::<PieceKind>::empty(),
            r@.len() == 14,
            is_bag(r@.subrange(0, 7)),
            is_bag(r@.subrange(7, 14)),
    {
        let mut s = Self { bag: Vec::new(), queue: Vec::new(), dealt: Ghost(Seq::empty()) };
        // Prefill so next queue of 5 is always ready
        while s.queue.len() < 14
            invariant
                all_bags(s.queue@),
                s.dealt@ == Seq::<PieceKind>::empty(),
                s.bag@.len() == 0,
                s.queue@.len() % 7 == 0,
                s.queue@.len() <= 14,
            decreases 14 - s.queue@.len(),
        {
            s.refill_bag();
            let ghost q0 = s.queue@;
            let ghost b = s.bag@;
            s.queue.append(&mut s.bag);
            proof {
                lemma_all_bags_append(q0, b);
            }
        }
        proof {
            assert(s.dealt@ + s.queue@ =~= s.queue@);
            assert(bag_at(s.queue@, 0) == s.queue@.subrange(0, 7));
            assert(bag_at(s.queue@, 1) == s.queue@.subrange(7, 14));
        }
        s
    }

    /// Deal the next piece, queueing a fresh bag when fewer than seven remain.
    pub fn next(&mut self) -> (r: PieceKind)
        requires
            old(self).wf(),
        ensures
            final(self).wf(),
            r == old(self)@[0],
            spec_deal(old(self)@, final(self)@, r),
            final(self).dealt() == old(self).dealt().push(r),
    {
        reveal(spec_deal);
        let ghost q0 = self.queue@;
        let ghost d0 = self.dealt@;
        if self.queue.len() < 7 {
            self.refill_bag();
            let ghost b = self.bag@;
            self.queue.append(&mut self.bag);
            proof {
                assert(d0 + self.queue@ =~= (d0 + q0) + b);
                lemma_all_bags_append(d0 + q0, b);
                assert(is_bag(b) && self.queue@ == q0 + b);
            }
        }
        let ghost full = self.queue@;
        let r = self.queue.remove(0);
        self.dealt = Ghost(d0.push(r));
        proof {
            assert(self.dealt@ + self.queue@ =~= d0 + full);
            if q0.len() >= 7 {
                assert(self.queue@ =~= q0.drop_first());
            } else {
                assert(self.queue@ =~= full.drop_first());
            }
        }
        r
    }

    /// Dealing keeps the queue's order: the piece dealt was first, and the
    /// pieces behind it move up, in order, with a fresh bag behind them when
    /// one was added.
    pub proof fn lemma_deal_keeps_order(q: Seq<PieceKind>, q2: Seq<PieceKind>, r: PieceKind)
        requires
            spec_deal(q, q2, r),
        ensures
            r == q[0],
            q2.len() >= q.len() - 1,
            q2.take(q.len() - 1) == q.drop_first(),
    {
        reveal(spec_deal);
        if q.len() < 7 {
            let b = choose|b: Seq<PieceKind>| is_bag(b) && q2 == (q + b).drop_first();
            assert(q2.take(q.len() - 1) =~= q.drop_first());
        } else {
            assert(q2.take(q.len() - 1) =~= q.drop_first());
        }
    }

    /// A well-formed bag has at least six pieces queued.
    pub proof fn lemma_queue_ready(&self)
        requires
            self.wf(),
        ensures
            self@.len() >= 6,
    {
    }

    /// Peek next `n` pieces without consuming.
    pub fn peek(&self, n: usize) -> (r: Vec<PieceKind>)
        ensures
            r@ == self@.take(if n < self@.len() { n as int } else { self@.len() as int }),
    {
        let mut out: Vec<PieceKind> = Vec::new();
        let mut i: usize = 0;
        while i < n && i < self.queue.len()
            invariant
                i <= n,
                i <= self.queue@.len(),
                out@ == self.queue@.take(i as int),
            decreases n - i,
        {
            out.push(self.queue[i]);
            i = i + 1;
            assert(out@ =~= self.queue@.take(i as int));
        }
        out
    }
}

impl Default for SevenBag {
    fn default() -> (r: Self)
        ensures
            r.wf(),
            r.dealt() == Seq::<PieceKind>::empty(),
            r@.len() == 14,
            is_bag(r@.subrange(0, 7)),
            is_bag(r@.subrange(7, 14)),
    {
        Self::new()
    }
}

} // verus!
