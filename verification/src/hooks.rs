//! Blocks of tests: a `before` hook, a test or a list of nested blocks, and
//! an `after` hook. When a block's `before` hook fails, everything else in the
//! block is skipped.
use crate::outcome::{Status, TestRes};
use vstd::prelude::*;

verus! {

/// What a block wraps: a single test, or a list of nested blocks.
pub enum Action<T> {
    Test(T),
    Block(Vec<Block<T>>),
}

/// A test (or nested blocks) between a `before` and an `after` hook.
pub struct Block<T> {
    pub before: T,
    pub test: Action<T>,
    pub after: T,
}

/// The results of an action: one test result, or one result per nested block.
pub enum Res {
    Test(TestRes),
    Block(Vec<BlockRes>),
}

/// The results of a block, in the block's shape.
pub struct BlockRes {
    pub before: TestRes,
    pub test: Res,
    pub after: TestRes,
}

// ---------------------------------------------------------------------------
// The nodes of a block, in the order in which they are requested:
// `before`, then the action's nodes, then `after`.

pub open spec fn block_nodes<T>(b: Block<T>) -> Seq<T>
    decreases b,
{
    seq![b.before] + action_nodes(b.test) + seq![b.after]
}

pub open spec fn action_nodes<T>(a: Action<T>) -> Seq<T>
    decreases a,
{
    match a {
        Action::Test(t) => seq![t],
        Action::Block(v) => blocks_nodes(v@),
    }
}

pub open spec fn blocks_nodes<T>(bs: Seq<Block<T>>) -> Seq<T>
    decreases bs,
{
    if bs.len() == 0 {
        Seq::empty()
    } else {
        blocks_nodes(bs.subrange(0, bs.len() - 1)) + block_nodes(bs[bs.len() - 1])
    }
}

// ---------------------------------------------------------------------------
// Which nodes are skipped. `p` holds the results of the requests made so far
// within the block (or action); the node concerned is the next one, at
// position `p.len()`. `skip` says whether the whole block is being skipped.

/// Whether the node after the answers `p` is skipped, in a block.
pub open spec fn block_skips<T>(b: Block<T>, p: Seq<TestRes>, skip: bool) -> bool
    decreases b,
{
    if p.len() == 0 {
        skip
    } else {
        let inner = skip || p[0].status == Status::Fail;
        if p.len() <= action_nodes(b.test).len() {
            action_skips(b.test, p.subrange(1, p.len() as int), inner)
        } else {
            inner
        }
    }
}

/// Whether the node after the answers `p` is skipped, in an action.
pub open spec fn action_skips<T>(a: Action<T>, p: Seq<TestRes>, skip: bool) -> bool
    decreases a,
{
    match a {
        Action::Test(_) => skip,
        Action::Block(v) => blocks_skips(v@, p, skip),
    }
}

/// Whether the node after the answers `p` is skipped, in a list of blocks.
pub open spec fn blocks_skips<T>(bs: Seq<Block<T>>, p: Seq<TestRes>, skip: bool) -> bool
    decreases bs,
{
    if bs.len() == 0 {
        skip
    } else {
        let init = bs.subrange(0, bs.len() - 1);
        let pre = blocks_nodes(init).len();
        if p.len() < pre {
            blocks_skips(init, p, skip)
        } else {
            block_skips(bs[bs.len() - 1], p.subrange(pre as int, p.len() as int), skip)
        }
    }
}

// ---------------------------------------------------------------------------
// The results of a block: the answers, in request order, arranged in the
// block's shape.

pub open spec fn block_res_ok<T>(r: BlockRes, b: Block<T>, ans: Seq<TestRes>) -> bool
    decreases b,
{
    let n = action_nodes(b.test).len() as int;
    &&& ans.len() == n + 2
    &&& r.before == ans[0]
    &&& r.after == ans[n + 1]
    &&& action_res_ok(r.test, b.test, ans.subrange(1, n + 1))
}

pub open spec fn action_res_ok<T>(r: Res, a: Action<T>, ans: Seq<TestRes>) -> bool
    decreases a,
{
    match a {
        Action::Test(_) => match r {
            Res::Test(x) => ans.len() == 1 && x == ans[0],
            Res::Block(_) => false,
        },
        Action::Block(v) => match r {
            Res::Test(_) => false,
            Res::Block(rs) => blocks_res_ok(rs@, v@, ans),
        },
    }
}

pub open spec fn blocks_res_ok<T>(rs: Seq<BlockRes>, bs: Seq<Block<T>>, ans: Seq<TestRes>) -> bool
    decreases bs,
{
    if bs.len() == 0 {
        rs.len() == 0 && ans.len() == 0
    } else {
        let init = bs.subrange(0, bs.len() - 1);
        let pre = blocks_nodes(init).len();
        &&& rs.len() == bs.len()
        &&& pre <= ans.len()
        &&& blocks_res_ok(rs.subrange(0, rs.len() - 1), init, ans.subrange(0, pre as int))
        &&& block_res_ok(rs[rs.len() - 1], bs[bs.len() - 1], ans.subrange(pre as int, ans.len() as int))
    }
}

/// The answers that block results hold, in request order.
pub open spec fn block_res_answers(r: BlockRes) -> Seq<TestRes>
    decreases r,
{
    seq![r.before] + res_answers(r.test) + seq![r.after]
}

pub open spec fn res_answers(r: Res) -> Seq<TestRes>
    decreases r,
{
    match r {
        Res::Test(x) => seq![x],
        Res::Block(rs) => blocks_res_answers(rs@),
    }
}

pub open spec fn blocks_res_answers(rs: Seq<BlockRes>) -> Seq<TestRes>
    decreases rs,
{
    if rs.len() == 0 {
        Seq::empty()
    } else {
        blocks_res_answers(rs.subrange(0, rs.len() - 1)) + block_res_answers(rs[rs.len() - 1])
    }
}

/// Counting the nodes of a prefix of a list of blocks.
pub proof fn lemma_blocks_prefix<T>(bs: Seq<Block<T>>, i: int)
    requires
        0 <= i < bs.len(),
    ensures
        blocks_nodes(bs.subrange(0, i + 1)).len() == blocks_nodes(bs.subrange(0, i)).len()
            + block_nodes(bs[i]).len(),
        blocks_nodes(bs.subrange(0, i + 1)).len() <= blocks_nodes(bs).len(),
    decreases bs.len(),
{
    let s = bs.subrange(0, i + 1);
    assert(s.subrange(0, s.len() - 1) =~= bs.subrange(0, i));
    if i + 1 < bs.len() {
        let init = bs.subrange(0, bs.len() - 1);
        lemma_blocks_prefix(init, i);
        assert(init.subrange(0, i + 1) =~= s);
        assert(init.subrange(0, i) =~= bs.subrange(0, i));
    } else {
        assert(s =~= bs);
    }
}

/// The nodes of a prefix of a list of blocks come first among its nodes.
pub proof fn lemma_blocks_prefix_nodes<T>(bs: Seq<Block<T>>, i: int)
    requires
        0 <= i <= bs.len(),
    ensures
        blocks_nodes(bs.subrange(0, i)).len() <= blocks_nodes(bs).len(),
        blocks_nodes(bs.subrange(0, i)) =~= blocks_nodes(bs).subrange(
            0,
            blocks_nodes(bs.subrange(0, i)).len() as int,
        ),
    decreases bs.len(),
{
    if i == bs.len() {
        assert(bs.subrange(0, i) =~= bs);
    } else {
        let init = bs.subrange(0, bs.len() - 1);
        lemma_blocks_prefix_nodes(init, i);
        assert(init.subrange(0, i) =~= bs.subrange(0, i));
    }
}

/// Within a list of blocks, the position `k` that lies in block `i` is the
/// position `k - offset` of that block, where `offset` counts the nodes of
/// the blocks before it; and so is the question of whether it is skipped.
pub proof fn lemma_blocks_locate<T>(bs: Seq<Block<T>>, i: int, p: Seq<TestRes>, skip: bool)
    requires
        0 <= i < bs.len(),
        blocks_nodes(bs.subrange(0, i)).len() <= p.len(),
        p.len() < blocks_nodes(bs.subrange(0, i)).len() + block_nodes(bs[i]).len(),
    ensures
        p.len() < blocks_nodes(bs).len(),
        blocks_nodes(bs)[p.len() as int] == block_nodes(bs[i])[p.len() - blocks_nodes(
            bs.subrange(0, i),
        ).len()],
        blocks_skips(bs, p, skip) == block_skips(
            bs[i],
            p.subrange(blocks_nodes(bs.subrange(0, i)).len() as int, p.len() as int),
            skip,
        ),
    decreases bs.len(),
{
    lemma_blocks_prefix(bs, i);
    lemma_blocks_prefix_nodes(bs, i + 1);
    let s = bs.subrange(0, i + 1);
    assert(s.subrange(0, s.len() - 1) =~= bs.subrange(0, i));
    if i + 1 < bs.len() {
        let init = bs.subrange(0, bs.len() - 1);
        assert(init.subrange(0, i) =~= bs.subrange(0, i));
        assert(init.subrange(0, i + 1) =~= s);
        assert(init[i] == bs[i]);
        lemma_blocks_prefix_nodes(init, i + 1);
        lemma_blocks_locate(init, i, p, skip);
    } else {
        assert(s =~= bs);
    }
}

impl<T> Block<T> {
    pub fn new(before: T, test: Action<T>, after: T) -> (r: Block<T>)
        ensures
            r.before == before,
            r.test == test,
            r.after == after,
    {
        Block { before, test, after }
    }

    /// The number of nodes (hooks and tests) in this block.
    pub fn size(&self) -> (r: usize)
        requires
            block_nodes(*self).len() <= usize::MAX,
        ensures
            r == block_nodes(*self).len(),
        decreases self,
    {
        self.test.size() + 2
    }

    /// The node at position `k`, in request order.
    pub fn node(&self, k: usize) -> (r: &T)
        requires
            block_nodes(*self).len() <= usize::MAX,
            k < block_nodes(*self).len(),
        ensures
            *r == block_nodes(*self)[k as int],
        decreases self,
    {
        let n = self.test.size();
        if k == 0 {
            &self.before
        } else if k <= n {
            self.test.node(k - 1)
        } else {
            &self.after
        }
    }

    /// Whether the next request of this block, the one after the answers
    /// `answers[start..]`, is a skip (rather than a run). `skip` says whether
    /// the whole block is skipped.
    pub fn skips_next(&self, answers: &Vec<TestRes>, start: usize, skip: bool) -> (r: bool)
        requires
            block_nodes(*self).len() <= usize::MAX,
            start <= answers.len(),
            answers.len() - start < block_nodes(*self).len(),
        ensures
            r == block_skips(*self, answers@.subrange(start as int, answers.len() as int), skip),
        decreases self,
    {
        let ghost p = answers@.subrange(start as int, answers.len() as int);
        if answers.len() == start {
            skip
        } else {
            let inner = skip || answers[start].status.is_fail();
            let n = self.test.size();
            if answers.len() - start <= n {
                assert(p.subrange(1, p.len() as int) =~= answers@.subrange(
                    start + 1,
                    answers.len() as int,
                ));
                self.test.skips_next(answers, start + 1, inner)
            } else {
                inner
            }
        }
    }

    /// The results of this block from the answers `answers[start..]` to its
    /// requests, in the block's shape.
    pub fn collect(&self, answers: &Vec<TestRes>, start: usize) -> (r: BlockRes)
        requires
            block_nodes(*self).len() <= usize::MAX,
            start + block_nodes(*self).len() <= answers.len(),
        ensures
            block_res_ok(
                r,
                *self,
                answers@.subrange(start as int, start + block_nodes(*self).len()),
            ),
        decreases self,
    {
        let n = self.test.size();
        let before = answers[start].duplicate();
        let test = self.test.collect(answers, start + 1);
        let after = answers[start + n + 1].duplicate();
        let ghost a = answers@.subrange(start as int, start + n + 2);
        assert(a.subrange(1, n + 1) =~= answers@.subrange(start + 1, start + 1 + n));
        BlockRes { before, test, after }
    }
}

impl<T> Action<T> {
    /// The number of nodes (hooks and tests) in this action.
    #[verifier::loop_isolation(false)]
    pub fn size(&self) -> (r: usize)
        requires
            action_nodes(*self).len() <= usize::MAX,
        ensures
            r == action_nodes(*self).len(),
        decreases self,
    {
        match self {
            Action::Test(_) => 1,
            Action::Block(v) => {
                let mut total: usize = 0;
                let mut i: usize = 0;
                while i < v.len()
                    invariant
                        i <= v.len(),
                        blocks_nodes(v@).len() <= usize::MAX,
                        total == blocks_nodes(v@.subrange(0, i as int)).len(),
                    decreases v.len() - i,
                {
                    proof {
                        lemma_blocks_prefix(v@, i as int);
                        assert(decreases_to!(*self => v@[i as int]));
                    }
                    total = total + v[i].size();
                    i = i + 1;
                }
                assert(v@.subrange(0, v.len() as int) =~= v@);
                total
            },
        }
    }

    /// The node at position `k`, in request order.
    #[verifier::loop_isolation(false)]
    pub fn node(&self, k: usize) -> (r: &T)
        requires
            action_nodes(*self).len() <= usize::MAX,
            k < action_nodes(*self).len(),
        ensures
            *r == action_nodes(*self)[k as int],
        decreases self,
    {
        match self {
            Action::Test(t) => t,
            Action::Block(v) => {
                let ghost p = Seq::new(k as nat, |j: int| arbitrary::<TestRes>());
                let mut offset: usize = 0;
                let mut i: usize = 0;
                loop
                    invariant
                        i < v.len(),
                        offset == blocks_nodes(v@.subrange(0, i as int)).len(),
                        offset <= k,
                    decreases v.len() - i,
                {
                    proof {
                        lemma_blocks_prefix(v@, i as int);
                    }
                    let n = v[i].size();
                    if k < offset + n {
                        proof {
                            lemma_blocks_locate(v@, i as int, p, false);
                            assert(decreases_to!(*self => v@[i as int]));
                        }
                        return v[i].node(k - offset);
                    }
                    offset = offset + n;
                    i = i + 1;
                    proof {
                        lemma_blocks_prefix_nodes(v@, i as int);
                        if i == v.len() {
                            assert(v@.subrange(0, i as int) =~= v@);
                        }
                    }
                }
            },
        }
    }

    /// Whether the next request of this action, the one after the answers
    /// `answers[start..]`, is a skip. `skip` says whether the whole action is
    /// skipped.
    #[verifier::loop_isolation(false)]
    pub fn skips_next(&self, answers: &Vec<TestRes>, start: usize, skip: bool) -> (r: bool)
        requires
            action_nodes(*self).len() <= usize::MAX,
            start <= answers.len(),
            answers.len() - start < action_nodes(*self).len(),
        ensures
            r == action_skips(*self, answers@.subrange(start as int, answers.len() as int), skip),
        decreases self,
    {
        match self {
            Action::Test(_) => skip,
            Action::Block(v) => {
                let ghost p = answers@.subrange(start as int, answers.len() as int);
                let k = answers.len() - start;
                let mut offset: usize = 0;
                let mut i: usize = 0;
                loop
                    invariant
                        i < v.len(),
                        offset == blocks_nodes(v@.subrange(0, i as int)).len(),
                        offset <= k,
                    decreases v.len() - i,
                {
                    proof {
                        lemma_blocks_prefix(v@, i as int);
                    }
                    let n = v[i].size();
                    if k < offset + n {
                        proof {
                            lemma_blocks_locate(v@, i as int, p, skip);
                            assert(p.subrange(offset as int, p.len() as int) =~= answers@.subrange(
                                start + offset,
                                answers.len() as int,
                            ));
                            assert(decreases_to!(*self => v@[i as int]));
                        }
                        return v[i].skips_next(answers, start + offset, skip);
                    }
                    offset = offset + n;
                    i = i + 1;
                    proof {
                        lemma_blocks_prefix_nodes(v@, i as int);
                        if i == v.len() {
                            assert(v@.subrange(0, i as int) =~= v@);
                        }
                    }
                }
            },
        }
    }

    /// The results of this action from the answers `answers[start..]` to its
    /// requests, in the action's shape.
    #[verifier::loop_isolation(false)]
    pub fn collect(&self, answers: &Vec<TestRes>, start: usize) -> (r: Res)
        requires
            action_nodes(*self).len() <= usize::MAX,
            start + action_nodes(*self).len() <= answers.len(),
        ensures
            action_res_ok(
                r,
                *self,
                answers@.subrange(start as int, start + action_nodes(*self).len()),
            ),
        decreases self,
    {
        match self {
            Action::Test(_) => Res::Test(answers[start].duplicate()),
            Action::Block(v) => {
                let mut rs: Vec<BlockRes> = Vec::new();
                let mut offset: usize = 0;
                let mut i: usize = 0;
                while i < v.len()
                    invariant
                        i <= v.len(),
                        rs.len() == i,
                        offset == blocks_nodes(v@.subrange(0, i as int)).len(),
                        blocks_res_ok(
                            rs@,
                            v@.subrange(0, i as int),
                            answers@.subrange(start as int, start + offset),
                        ),
                    decreases v.len() - i,
                {
                    proof {
                        lemma_blocks_prefix(v@, i as int);
                        assert(decreases_to!(*self => v@[i as int]));
                    }
                    let n = v[i].size();
                    let br = v[i].collect(answers, start + offset);
                    let ghost old_rs = rs@;
                    rs.push(br);
                    let ghost s = v@.subrange(0, i + 1);
                    let ghost a = answers@.subrange(start as int, start + offset + n);
                    assert(s.subrange(0, s.len() - 1) =~= v@.subrange(0, i as int));
                    assert(rs@.subrange(0, rs@.len() - 1) =~= old_rs);
                    assert(a.subrange(0, offset as int) =~= answers@.subrange(
                        start as int,
                        start + offset,
                    ));
                    assert(a.subrange(offset as int, a.len() as int) =~= answers@.subrange(
                        start + offset,
                        start + offset + n,
                    ));
                    offset = offset + n;
                    i = i + 1;
                }
                assert(v@.subrange(0, v.len() as int) =~= v@);
                Res::Block(rs)
            },
        }
    }
}


// ---------------------------------------------------------------------------
// Running a block. The runner asks for its nodes one at a time, in order, each
// to be run or skipped; it is handed back each result, and finally arranges
// the results in the block's shape.

/// A request to run or to skip a node of a block.
pub enum Request<'a, T> {
    Run(&'a T),
    Skip(&'a T),
}

/// The state of a run of a block: the block, whether it is skipped as a
/// whole, and the results of the requests made so far.
pub struct BlockRun<'a, T> {
    block: &'a Block<T>,
    skip: bool,
    answers: Vec<TestRes>,
    size: usize,
}

impl<'a, T> BlockRun<'a, T> {
    #[verifier::type_invariant]
    spec fn inv(&self) -> bool {
        &&& self.size == block_nodes(*self.block).len()
        &&& self.answers.len() <= self.size
    }

    /// The block being run.
    pub closed spec fn root(&self) -> Block<T> {
        *self.block
    }

    /// Whether the block is skipped as a whole.
    pub closed spec fn skipping(&self) -> bool {
        self.skip
    }

    /// The results of the requests made so far, in order.
    pub closed spec fn answers(&self) -> Seq<TestRes> {
        self.answers@
    }

    /// Every node has had its request answered.
    pub open spec fn done(&self) -> bool {
        self.answers().len() == block_nodes(self.root()).len()
    }

    /// The next request: the next node in order, to be skipped if
    /// `block_skips` says so given the results so far, else run. `None` once
    /// every node has been answered.
    pub fn next(&self) -> (r: Option<Request<'a, T>>)
        ensures
            self.answers().len() <= block_nodes(self.root()).len(),
            r is None <==> self.done(),
            r matches Some(Request::Run(t)) ==> {
                &&& !block_skips(self.root(), self.answers(), self.skipping())
                &&& *t == block_nodes(self.root())[self.answers().len() as int]
            },
            r matches Some(Request::Skip(t)) ==> {
                &&& block_skips(self.root(), self.answers(), self.skipping())
                &&& *t == block_nodes(self.root())[self.answers().len() as int]
            },
    {
        proof {
            use_type_invariant(self);
        }
        if self.answers.len() == self.size {
            return None;
        }
        let block: &'a Block<T> = self.block;
        let node = block.node(self.answers.len());
        assert(self.answers@.subrange(0, self.answers.len() as int) =~= self.answers@);
        if block.skips_next(&self.answers, 0, self.skip) {
            Some(Request::Skip(node))
        } else {
            Some(Request::Run(node))
        }
    }

    /// Hands back the result of the pending request.
    pub fn feed(&mut self, res: TestRes)
        requires
            !old(self).done(),
        ensures
            final(self).root() == old(self).root(),
            final(self).skipping() == old(self).skipping(),
            final(self).answers() == old(self).answers().push(res),
    {
        proof {
            use_type_invariant(&*self);
        }
        let mut answers = Vec::new();
        std::mem::swap(&mut answers, &mut self.answers);
        answers.push(res);
        self.answers = answers;
    }

    /// The results of the block, once every request has been answered.
    pub fn finish(self) -> (r: BlockRes)
        requires
            self.done(),
        ensures
            block_res_ok(r, self.root(), self.answers()),
    {
        proof {
            use_type_invariant(&self);
        }
        let r = self.block.collect(&self.answers, 0);
        assert(self.answers@.subrange(0, self.size as int) =~= self.answers@);
        r
    }
}

impl<T> Block<T> {
    /// The number of nodes of this block, if it fits in a `usize`.
    pub fn checked_size(&self) -> (r: Option<usize>)
        ensures
            r is Some <==> block_nodes(*self).len() <= usize::MAX,
            r matches Some(n) ==> n == block_nodes(*self).len(),
        decreases self,
    {
        match self.test.checked_size() {
            Some(n) => n.checked_add(2),
            None => None,
        }
    }

    /// Starts a run of this block.
    pub fn run_block(&self) -> (r: BlockRun<'_, T>)
        requires
            block_nodes(*self).len() <= usize::MAX,
        ensures
            r.root() == *self,
            !r.skipping(),
            r.answers() == Seq::<TestRes>::empty(),
    {
        BlockRun { block: self, skip: false, answers: Vec::new(), size: self.size() }
    }

    /// Starts a run of this block in which every node is skipped.
    pub fn skip_block(&self) -> (r: BlockRun<'_, T>)
        requires
            block_nodes(*self).len() <= usize::MAX,
        ensures
            r.root() == *self,
            r.skipping(),
            r.answers() == Seq::<TestRes>::empty(),
    {
        BlockRun { block: self, skip: true, answers: Vec::new(), size: self.size() }
    }
}

impl<T> Action<T> {
    /// The number of nodes of this action, if it fits in a `usize`.
    #[verifier::loop_isolation(false)]
    pub fn checked_size(&self) -> (r: Option<usize>)
        ensures
            r is Some <==> action_nodes(*self).len() <= usize::MAX,
            r matches Some(n) ==> n == action_nodes(*self).len(),
        decreases self,
    {
        match self {
            Action::Test(_) => Some(1),
            Action::Block(v) => {
                let mut total: usize = 0;
                let mut i: usize = 0;
                while i < v.len()
                    invariant
                        i <= v.len(),
                        total == blocks_nodes(v@.subrange(0, i as int)).len(),
                    decreases v.len() - i,
                {
                    proof {
                        lemma_blocks_prefix(v@, i as int);
                        assert(decreases_to!(*self => v@[i as int]));
                    }
                    match v[i].checked_size() {
                        Some(n) => match total.checked_add(n) {
                            Some(t) => {
                                total = t;
                            },
                            None => {
                                return None;
                            },
                        },
                        None => {
                            return None;
                        },
                    }
                    i = i + 1;
                }
                assert(v@.subrange(0, v.len() as int) =~= v@);
                Some(total)
            },
        }
    }
}


// ---------------------------------------------------------------------------
// Hooks around a list of tests.

/// The hooks that a runner puts around a list of tests: `before` and
/// `after` once around the whole list, `before_each` and `after_each` around
/// each test.
///
/// `new_ok(base, out)` says that `out` is a value that `new` may build from
/// `base`, and `before_ok(out)` (and so on) that `out` is a value that
/// `before` (and so on) may return on these hooks; hooks that say nothing
/// more admit every value.
pub trait Hooks<T>: Sized {
    type Base;

    open spec fn new_ok(base: Self::Base, out: Self) -> bool {
        true
    }

    fn new(base: Self::Base) -> (r: Self)
        ensures
            Self::new_ok(base, r),
    ;

    open spec fn before_ok(&self, out: T) -> bool {
        true
    }

    open spec fn before_each_ok(&self, out: T) -> bool {
        true
    }

    open spec fn after_each_ok(&self, out: T) -> bool {
        true
    }

    open spec fn after_ok(&self, out: T) -> bool {
        true
    }

    fn before(&mut self) -> (r: T)
        ensures
            old(self).before_ok(r),
    ;

    fn before_each(&mut self) -> (r: T)
        ensures
            old(self).before_each_ok(r),
    ;

    fn after_each(&mut self) -> (r: T)
        ensures
            old(self).after_each_ok(r),
    ;

    fn after(&mut self) -> (r: T)
        ensures
            old(self).after_ok(r),
    ;
}

/// A runner that puts hooks around a list of tests.
pub struct HookRunner<H> {
    pub hooks: H,
}

/// `b` is the block that wraps each of `tests` between the same pair of
/// per-test hooks, all of it between another pair of hooks.
pub open spec fn wraps_tests<T>(b: Block<T>, tests: Seq<T>) -> bool {
    match b.test {
        Action::Test(_) => false,
        Action::Block(inner) => {
            &&& inner.len() == tests.len()
            &&& forall|i: int|
                0 <= i < tests.len() ==> #[trigger] inner@[i].test == Action::Test(tests[i])
            &&& forall|i: int, j: int|
                0 <= i < tests.len() && 0 <= j < tests.len() ==> #[trigger] inner@[i].before
                    == #[trigger] inner@[j].before && inner@[i].after == inner@[j].after
        },
    }
}

impl<H> HookRunner<H> {
    /// The runner whose hooks are those that `H::new` builds from `base`.
    pub fn new<T>(base: H::Base) -> (r: HookRunner<H>)
        where
            H: Hooks<T>,
        ensures
            H::new_ok(base, r.hooks),
    {
        HookRunner { hooks: H::new(base) }
    }

    /// The block that runs `tests`, each between `before_each` and
    /// `after_each`, all of them between `before` and `after`. Each hook is
    /// taken from a fresh copy of the hooks.
    pub fn to_block<T: Copy>(&mut self, tests: &[T]) -> (r: Block<T>)
        where
            H: Hooks<T> + Clone,
        ensures
            final(self).hooks == old(self).hooks,
            wraps_tests(r, tests@),
            exists|h: H| cloned(old(self).hooks, h) && #[trigger] h.before_ok(r.before),
            exists|h: H| cloned(old(self).hooks, h) && #[trigger] h.after_ok(r.after),
            r.test matches Action::Block(v) ==> forall|i: int|
                #![trigger v@[i]]
                0 <= i < v.len() ==> {
                    &&& exists|h: H|
                        cloned(old(self).hooks, h) && #[trigger] h.before_each_ok(v@[i].before)
                    &&& exists|h: H|
                        cloned(old(self).hooks, h) && #[trigger] h.after_each_ok(v@[i].after)
                },
    {
        let mut h1 = self.hooks.clone();
        let ghost g1 = h1;
        let before = h1.before();
        let mut h2 = self.hooks.clone();
        let ghost g2 = h2;
        let after = h2.after();
        let mut h3 = self.hooks.clone();
        let ghost g3 = h3;
        let before_each = h3.before_each();
        let mut h4 = self.hooks.clone();
        let ghost g4 = h4;
        let after_each = h4.after_each();
        assert(cloned(self.hooks, g1) && g1.before_ok(before));
        assert(cloned(self.hooks, g2) && g2.after_ok(after));
        assert(cloned(self.hooks, g3) && g3.before_each_ok(before_each));
        assert(cloned(self.hooks, g4) && g4.after_each_ok(after_each));
        let mut inner: Vec<Block<T>> = Vec::new();
        let mut i: usize = 0;
        while i < tests.len()
            invariant
                i <= tests.len(),
                inner.len() == i,
                forall|k: int| 0 <= k < i ==> #[trigger] inner@[k].test == Action::Test(tests@[k]),
                forall|k: int| 0 <= k < i ==> #[trigger] inner@[k].before == before_each,
                forall|k: int| 0 <= k < i ==> #[trigger] inner@[k].after == after_each,
            decreases tests.len() - i,
        {
            inner.push(Block::new(before_each, Action::Test(tests[i]), after_each));
            i = i + 1;
        }
        assert forall|i: int| #![trigger inner@[i]] 0 <= i < inner.len() implies {
            &&& exists|h: H| cloned(self.hooks, h) && #[trigger] h.before_each_ok(inner@[i].before)
            &&& exists|h: H| cloned(self.hooks, h) && #[trigger] h.after_each_ok(inner@[i].after)
        } by {
            assert(g3.before_each_ok(inner@[i].before));
            assert(g4.after_each_ok(inner@[i].after));
        }
        Block::new(before, Action::Block(inner), after)
    }
}

// ---------------------------------------------------------------------------
// Laws of block runs.

proof fn lemma_block_skipped_all<T>(b: Block<T>, p: Seq<TestRes>)
    requires
        p.len() < block_nodes(b).len(),
    ensures
        block_skips(b, p, true),
    decreases b,
{
    if p.len() > 0 && p.len() <= action_nodes(b.test).len() {
        lemma_action_skipped_all(b.test, p.subrange(1, p.len() as int));
    }
}

proof fn lemma_action_skipped_all<T>(a: Action<T>, p: Seq<TestRes>)
    requires
        p.len() < action_nodes(a).len(),
    ensures
        action_skips(a, p, true),
    decreases a,
{
    match a {
        Action::Test(_) => {},
        Action::Block(v) => {
            assert(decreases_to!(a => v));
            assert(decreases_to!(v => v@));
            lemma_blocks_skipped_all(v@, p);
        },
    }
}

proof fn lemma_blocks_skipped_all<T>(bs: Seq<Block<T>>, p: Seq<TestRes>)
    requires
        p.len() < blocks_nodes(bs).len(),
    ensures
        blocks_skips(bs, p, true),
    decreases bs,
{
    if bs.len() > 0 {
        let init = bs.subrange(0, bs.len() - 1);
        let pre = blocks_nodes(init).len();
        if p.len() < pre {
            lemma_blocks_skipped_all(init, p);
        } else {
            lemma_block_skipped_all(bs[bs.len() - 1], p.subrange(pre as int, p.len() as int));
        }
    }
}

/// When a block is skipped as a whole, every one of its nodes is skipped,
/// whatever the results of the earlier requests.
pub proof fn law_skipped_block_skips_all<T>(b: Block<T>, p: Seq<TestRes>)
    requires
        p.len() < block_nodes(b).len(),
    ensures
        block_skips(b, p, true),
{
    lemma_block_skipped_all(b, p);
}

/// When the `before` hook of a block fails, every later node of the block
/// (its test or nested blocks, and its `after` hook) is skipped.
pub proof fn law_failed_before_skips_rest<T>(b: Block<T>, p: Seq<TestRes>, skip: bool)
    requires
        1 <= p.len() < block_nodes(b).len(),
        p[0].status == Status::Fail,
    ensures
        block_skips(b, p, skip),
{
    if p.len() <= action_nodes(b.test).len() {
        lemma_action_skipped_all(b.test, p.subrange(1, p.len() as int));
    }
}

/// A block that is not skipped runs its `before` hook, and runs its `after`
/// hook exactly when the `before` hook did not fail.
pub proof fn law_run_block_hooks<T>(b: Block<T>, p: Seq<TestRes>)
    requires
        p.len() + 1 == block_nodes(b).len(),
    ensures
        !block_skips(b, Seq::<TestRes>::empty(), false),
        block_skips(b, p, false) == (p[0].status == Status::Fail),
{
}

/// A test directly inside a block that is not skipped is run exactly when
/// the block's `before` hook did not fail.
pub proof fn law_test_runs_unless_before_fails<T>(before: T, t: T, after: T, first: TestRes)
    ensures
        block_skips(
            Block { before, test: Action::Test(t), after },
            seq![first],
            false,
        ) == (first.status == Status::Fail),
{
}

/// Within a block, each nested block is run as it would be on its own: the
/// requests for its nodes depend only on the results of its own earlier
/// nodes, and on whether it is skipped as a whole, which it is when the
/// enclosing block is skipped or the enclosing `before` hook failed.
pub proof fn law_nested_block_runs_alone<T>(
    b: Block<T>,
    v: Vec<Block<T>>,
    i: int,
    p: Seq<TestRes>,
    skip: bool,
)
    requires
        b.test == Action::Block(v),
        0 <= i < v.len(),
        1 + blocks_nodes(v@.subrange(0, i)).len() <= p.len(),
        p.len() < 1 + blocks_nodes(v@.subrange(0, i)).len() + block_nodes(v@[i]).len(),
    ensures
        block_skips(b, p, skip) == block_skips(
            v@[i],
            p.subrange(1 + blocks_nodes(v@.subrange(0, i)).len() as int, p.len() as int),
            skip || p[0].status == Status::Fail,
        ),
{
    let off = blocks_nodes(v@.subrange(0, i)).len() as int;
    let q = p.subrange(1, p.len() as int);
    lemma_blocks_prefix(v@, i);
    lemma_blocks_locate(v@, i, q, skip || p[0].status == Status::Fail);
    assert(q.subrange(off, q.len() as int) =~= p.subrange(1 + off, p.len() as int));
}

proof fn lemma_block_res_answers<T>(r: BlockRes, b: Block<T>, ans: Seq<TestRes>)
    requires
        block_res_ok(r, b, ans),
    ensures
        block_res_answers(r) =~= ans,
    decreases b,
{
    let n = action_nodes(b.test).len() as int;
    lemma_action_res_answers(r.test, b.test, ans.subrange(1, n + 1));
}

proof fn lemma_action_res_answers<T>(r: Res, a: Action<T>, ans: Seq<TestRes>)
    requires
        action_res_ok(r, a, ans),
    ensures
        res_answers(r) =~= ans,
    decreases a,
{
    match a {
        Action::Test(_) => {},
        Action::Block(v) => {
            assert(decreases_to!(a => v));
            assert(decreases_to!(v => v@));
            match r {
                Res::Block(rs) => lemma_blocks_res_answers(rs@, v@, ans),
                Res::Test(_) => {},
            }
        },
    }
}

proof fn lemma_blocks_res_answers<T>(rs: Seq<BlockRes>, bs: Seq<Block<T>>, ans: Seq<TestRes>)
    requires
        blocks_res_ok(rs, bs, ans),
    ensures
        blocks_res_answers(rs) =~= ans,
    decreases bs,
{
    if bs.len() > 0 {
        let init = bs.subrange(0, bs.len() - 1);
        let pre = blocks_nodes(init).len() as int;
        lemma_blocks_res_answers(rs.subrange(0, rs.len() - 1), init, ans.subrange(0, pre));
        lemma_block_res_answers(
            rs[rs.len() - 1],
            bs[bs.len() - 1],
            ans.subrange(pre, ans.len() as int),
        );
    }
}

/// The results of a block hold exactly the results of its requests, in the
/// order in which they were made.
pub proof fn law_results_hold_answers<T>(r: BlockRes, b: Block<T>, ans: Seq<TestRes>)
    requires
        block_res_ok(r, b, ans),
    ensures
        block_res_answers(r) == ans,
{
    lemma_block_res_answers(r, b, ans);
}

} // verus!
