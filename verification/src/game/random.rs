//! Where the shapes of a match come from.

use vstd::prelude::*;
use crate::game::tetromino::TetrominoShape;

verus! {

/// How many upcoming shapes a supplier shows.
pub const PEEK_SIZE: usize = 5;

/// How many shapes there are.
pub const SHAPES: usize = 7;

/// A supplier of shapes. A match asks it for one shape at a time and shows
/// its player what is to come; how the shapes are picked is the supplier's
/// own affair.
///
/// The contracts below are what a match relies on. They are proved of
/// `Randomizer`; of a supplier written elsewhere they are taken on trust.
pub trait RandomTetromino {
    /// The shapes to come, the next one first. Contracts speak of the queue
    /// by this name; it is never called. A supplier written outside
    /// verified code gives it the body of `peek`.
    spec fn upcoming(&self) -> [TetrominoShape; PEEK_SIZE];

    /// Hands out the next shape and moves on: the shapes to come move up by
    /// one, and a new one comes in behind them.
    fn next(&mut self) -> (shape: TetrominoShape)
        ensures
            shape == old(self).upcoming()@[0],
            follows(old(self).upcoming()@, final(self).upcoming()@),
    ;

    /// The shapes to come, the next one first. Nothing is handed out.
    fn peek(&self) -> (queue: [TetrominoShape; PEEK_SIZE])
        ensures
            queue == self.upcoming(),
    ;
}

/// Whether `after` is `before` moved up by one: without its first shape, and
/// with one more at its end.
pub open spec fn follows(before: Seq<TetrominoShape>, after: Seq<TetrominoShape>) -> bool {
    after.len() == before.len() && before.len() > 0 && after == before.skip(1).push(after.last())
}

/// The seven shapes in their order.
pub open spec fn all_shapes() -> Seq<TetrominoShape> {
    seq![
        TetrominoShape::I,
        TetrominoShape::O,
        TetrominoShape::T,
        TetrominoShape::S,
        TetrominoShape::Z,
        TetrominoShape::J,
        TetrominoShape::L,
    ]
}

fn shape_at(i: u32) -> (shape: TetrominoShape)
    requires
        i < SHAPES,
    ensures
        shape == all_shapes()[i as int],
{
    if i == 0 {
        TetrominoShape::I
    } else if i == 1 {
        TetrominoShape::O
    } else if i == 2 {
        TetrominoShape::T
    } else if i == 3 {
        TetrominoShape::S
    } else if i == 4 {
        TetrominoShape::Z
    } else if i == 5 {
        TetrominoShape::J
    } else {
        TetrominoShape::L
    }
}

/// The state that follows `state` in the sequence of a 64-bit xorshift
/// generator.
pub open spec fn scrambled(state: u64) -> u64 {
    let a = state ^ (state << 13);
    let b = a ^ (a >> 7);
    b ^ (b << 17)
}

/// The state that a generator starts in for `seed`. The state 0 would never
/// be left, so the seed 0 stands for another.
pub open spec fn seeded(seed: u64) -> u64 {
    if seed == 0 {
        0x9E37_79B9_7F4A_7C15
    } else {
        seed
    }
}

/// The number below `sides` that a generator rolls on its way from `state`.
pub open spec fn rolled(state: u64, sides: u32) -> u32 {
    ((scrambled(state) >> 32) % (sides as u64)) as u32
}

/// A generator of numbers that look random and follow from its seed.
#[derive(Clone, Copy, Debug)]
pub struct Dice {
    state: u64,
}

impl View for Dice {
    type V = u64;

    closed spec fn view(&self) -> u64 {
        self.state
    }
}

impl Dice {
    /// A generator for `seed`.
    pub fn new(seed: u64) -> (dice: Dice)
        ensures
            dice@ == seeded(seed),
    {
        Dice {
            state: if seed == 0 {
                0x9E37_79B9_7F4A_7C15
            } else {
                seed
            },
        }
    }

    /// Rolls a number below `sides`.
    pub fn roll(&mut self, sides: u32) -> (number: u32)
        requires
            sides > 0,
        ensures
            number == rolled(old(self)@, sides),
            number < sides,
            final(self)@ == scrambled(old(self)@),
    {
        let a: u64 = self.state ^ (self.state << 13);
        let b: u64 = a ^ (a >> 7);
        self.state = b ^ (b << 17);
        ((self.state >> 32) % (sides as u64)) as u32
    }
}

/// The ways in which a supplier may pick its shapes.
#[derive(Clone, Copy, Debug, PartialEq, Eq, Structural)]
pub enum RandomMode {
    /// Every shape is drawn on its own, whatever came before.
    True,
    /// The seven shapes are dealt from a bag, which is filled again when it
    /// is empty: no shape comes twice out of one bag.
    Bag,
}

/// A supplier as a value.
pub struct RandomizerView {
    /// The mode of the supplier.
    pub mode: RandomMode,
    /// The state of its generator.
    pub dice: u64,
    /// The shapes that are left in the bag. A supplier without a bag has
    /// none.
    pub bag: Seq<TetrominoShape>,
    /// The shapes to come, the next one first.
    pub queue: Seq<TetrominoShape>,
}

impl RandomizerView {
    /// The bag that the next shape is taken from: the bag, or a full one if
    /// the bag is empty.
    pub open spec fn open_bag(self) -> Seq<TetrominoShape> {
        if self.bag.len() == 0 {
            all_shapes()
        } else {
            self.bag
        }
    }

    /// The place in the open bag, or among all shapes, of the shape that is
    /// picked next.
    pub open spec fn pick(self) -> int {
        match self.mode {
            RandomMode::True => rolled(self.dice, SHAPES as u32) as int,
            RandomMode::Bag => rolled(self.dice, self.open_bag().len() as u32) as int,
        }
    }

    /// The shape that is picked next.
    pub open spec fn picked(self) -> TetrominoShape {
        match self.mode {
            RandomMode::True => all_shapes()[self.pick()],
            RandomMode::Bag => self.open_bag()[self.pick()],
        }
    }

    /// The supplier after it has picked a shape, the queue left as it is.
    pub open spec fn drawn(self) -> RandomizerView {
        RandomizerView {
            dice: scrambled(self.dice),
            bag: match self.mode {
                RandomMode::True => self.bag,
                RandomMode::Bag => self.open_bag().remove(self.pick()),
            },
            ..self
        }
    }

    /// The supplier after it has handed out a shape: the queue moves up by
    /// one, and the shape picked comes in at its end.
    pub open spec fn advanced(self) -> RandomizerView {
        RandomizerView { queue: self.queue.skip(1).push(self.picked()), ..self.drawn() }
    }

    /// The supplier after it has picked a shape to the end of its queue.
    pub open spec fn pushed(self) -> RandomizerView {
        RandomizerView { queue: self.queue.push(self.picked()), ..self.drawn() }
    }

    /// A new supplier of `mode` for `seed`: its queue has been filled by
    /// `PEEK_SIZE` picks.
    pub open spec fn start(mode: RandomMode, seed: u64) -> RandomizerView {
        RandomizerView {
            mode,
            dice: seeded(seed),
            bag: Seq::empty(),
            queue: Seq::empty(),
        }.pushed().pushed().pushed().pushed().pushed()
    }

    /// The queue is full, and no shape is in the bag twice.
    pub open spec fn wf(self) -> bool {
        &&& self.queue.len() == PEEK_SIZE
        &&& self.bag.no_duplicates()
        &&& self.bag.len() < SHAPES
    }
}

/// A supplier that picks its shapes by rolling dice.
pub struct Randomizer {
    mode: RandomMode,
    dice: Dice,
    bag: Vec<TetrominoShape>,
    queue: [TetrominoShape; PEEK_SIZE],
}

impl View for Randomizer {
    type V = RandomizerView;

    closed spec fn view(&self) -> RandomizerView {
        RandomizerView { mode: self.mode, dice: self.dice@, bag: self.bag@, queue: self.queue@ }
    }
}

/// The seven shapes are seven different ones.
pub proof fn lemma_all_shapes_differ()
    ensures
        all_shapes().no_duplicates(),
        all_shapes().len() == SHAPES,
{
}

/// A bag without a shape twice stays so when a shape is taken out, and the
/// shape taken out is no longer in it.
pub proof fn lemma_bag_deals_once(bag: Seq<TetrominoShape>, i: int)
    requires
        bag.no_duplicates(),
        0 <= i < bag.len(),
    ensures
        bag.remove(i).no_duplicates(),
        !bag.remove(i).contains(bag[i]),
        bag.remove(i).len() == bag.len() - 1,
{
    let rest = bag.remove(i);
    assert forall|a: int, b: int|
        0 <= a < rest.len() && 0 <= b < rest.len() && a != b implies rest[a] != rest[b] by {
        let oa = if a < i { a } else { a + 1 };
        let ob = if b < i { b } else { b + 1 };
        assert(rest[a] == bag[oa] && rest[b] == bag[ob]);
    }
    assert forall|a: int| 0 <= a < rest.len() implies rest[a] != bag[i] by {
        let oa = if a < i { a } else { a + 1 };
        assert(rest[a] == bag[oa]);
    }
}

/// A pick does not look at the queue: a supplier picks what it would pick
/// with an empty queue, and goes on with the same dice and bag.
proof fn lemma_pick_ignores_queue(supplier: RandomizerView)
    ensures
        supplier.picked() == (RandomizerView { queue: Seq::empty(), ..supplier }).picked(),
        supplier.drawn() == (RandomizerView {
            queue: supplier.queue,
            ..(RandomizerView { queue: Seq::empty(), ..supplier }).drawn()
        }),
{
}

/// Picks a shape: by a roll among all seven, or out of the bag, which is
/// filled first if it is empty.
fn pick(mode: RandomMode, dice: &mut Dice, bag: &mut Vec<TetrominoShape>) -> (shape: TetrominoShape)
    requires
        old(bag)@.no_duplicates(),
        old(bag)@.len() < SHAPES,
    ensures
        shape == pick_from(mode, old(dice)@, old(bag)@).picked(),
        final(dice)@ == pick_from(mode, old(dice)@, old(bag)@).drawn().dice,
        final(bag)@ == pick_from(mode, old(dice)@, old(bag)@).drawn().bag,
        final(bag)@.no_duplicates(),
        final(bag)@.len() < SHAPES,
{
    match mode {
        RandomMode::True => shape_at(dice.roll(SHAPES as u32)),
        RandomMode::Bag => {
            if bag.len() == 0 {
                bag.push(TetrominoShape::I);
                bag.push(TetrominoShape::O);
                bag.push(TetrominoShape::T);
                bag.push(TetrominoShape::S);
                bag.push(TetrominoShape::Z);
                bag.push(TetrominoShape::J);
                bag.push(TetrominoShape::L);
                assert(bag@ =~= all_shapes());
            }
            let i: usize = dice.roll(bag.len() as u32) as usize;
            proof {
                lemma_all_shapes_differ();
                lemma_bag_deals_once(bag@, i as int);
            }
            bag.remove(i)
        },
    }
}

/// A supplier with this mode, dice and bag, and nothing in its queue.
pub open spec fn pick_from(
    mode: RandomMode,
    dice: u64,
    bag: Seq<TetrominoShape>,
) -> RandomizerView {
    RandomizerView { mode, dice, bag, queue: Seq::empty() }
}

impl RandomMode {
    /// A supplier of this mode whose shapes follow from `seed`.
    pub fn build(self, seed: u64) -> (random: Randomizer)
        ensures
            random@ == RandomizerView::start(self, seed),
            random@.wf(),
    {
        Randomizer::new(self, seed)
    }
}

impl Randomizer {
    /// No shape is in the bag twice, and the bag is never full between two
    /// picks.
    #[verifier::type_invariant]
    spec fn bag_is_dealt_from(self) -> bool {
        self.bag@.no_duplicates() && self.bag@.len() < SHAPES
    }

    /// The queue of the supplier.
    pub closed spec fn queue(&self) -> [TetrominoShape; PEEK_SIZE] {
        self.queue
    }

    /// A supplier of `mode` whose shapes follow from `seed`.
    pub fn new(mode: RandomMode, seed: u64) -> (random: Randomizer)
        ensures
            random@ == RandomizerView::start(mode, seed),
            random@.wf(),
    {
        let mut dice = Dice::new(seed);
        let mut bag: Vec<TetrominoShape> = Vec::new();
        let ghost f0 = pick_from(mode, seeded(seed), Seq::empty());
        let s0 = pick(mode, &mut dice, &mut bag);
        let ghost f1 = f0.pushed();
        assert(f1 == (RandomizerView { queue: f1.queue, ..pick_from(mode, dice@, bag@) }));
        let s1 = pick(mode, &mut dice, &mut bag);
        let ghost f2 = f1.pushed();
        proof {
            lemma_pick_ignores_queue(f1);
        }
        assert(f2 == (RandomizerView { queue: f2.queue, ..pick_from(mode, dice@, bag@) }));
        let s2 = pick(mode, &mut dice, &mut bag);
        let ghost f3 = f2.pushed();
        proof {
            lemma_pick_ignores_queue(f2);
        }
        assert(f3 == (RandomizerView { queue: f3.queue, ..pick_from(mode, dice@, bag@) }));
        let s3 = pick(mode, &mut dice, &mut bag);
        let ghost f4 = f3.pushed();
        proof {
            lemma_pick_ignores_queue(f3);
        }
        assert(f4 == (RandomizerView { queue: f4.queue, ..pick_from(mode, dice@, bag@) }));
        let s4 = pick(mode, &mut dice, &mut bag);
        let ghost f5 = f4.pushed();
        proof {
            lemma_pick_ignores_queue(f4);
        }
        assert(f5 == (RandomizerView { queue: f5.queue, ..pick_from(mode, dice@, bag@) }));
        assert(f5.queue =~= seq![s0, s1, s2, s3, s4]);
        let queue = [s0, s1, s2, s3, s4];
        assert(queue@ =~= f5.queue);
        Randomizer { mode, dice, bag, queue }
    }
}

impl RandomTetromino for Randomizer {
    open spec fn upcoming(&self) -> [TetrominoShape; PEEK_SIZE] {
        self.queue()
    }

    /// Hands out the first shape of the queue, and picks a new last one.
    fn next(&mut self) -> (shape: TetrominoShape)
        ensures
            final(self)@ == old(self)@.advanced(),
            final(self)@.wf(),
    {
        proof {
            use_type_invariant(&*self);
            lemma_pick_ignores_queue(self@);
        }
        let shape = self.queue[0];
        let mut dice = self.dice;
        let mut bag: Vec<TetrominoShape> = Vec::new();
        std::mem::swap(&mut bag, &mut self.bag);
        let fresh = pick(self.mode, &mut dice, &mut bag);
        let queue = [self.queue[1], self.queue[2], self.queue[3], self.queue[4], fresh];
        assert(queue@ =~= old(self)@.queue.skip(1).push(fresh));
        self.dice = dice;
        self.bag = bag;
        self.queue = queue;
        shape
    }

    /// The queue.
    fn peek(&self) -> (queue: [TetrominoShape; PEEK_SIZE])
        ensures
            queue@ == self@.queue,
            self@.wf(),
    {
        proof {
            use_type_invariant(self);
        }
        self.queue
    }
}

} // verus!
