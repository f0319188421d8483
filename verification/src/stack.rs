//! The operand stack of one call frame, bounded by a limit.

use vstd::prelude::*;
use crate::cap::SpaceCap;
use crate::error::{ItrErr, ItrErrCode, VmrtErr, VmrtRes};
use crate::value::{Val, Value, lemma_vals_push, spec_concat, spec_size_ok, val_of, val_scalar_bytes, val_uint_below, vals_of};

verus! {

/// The operand stack: its values bottom to top, and its limit.
#[derive(Debug)]
pub struct Stack {
    pub datas: Vec<Value>,
    /// The most values the stack may hold. Public so that contracts may
    /// speak of the public `datas` beside it.
    pub limit: usize,
}

/// The result of a stack operation: success, or an error with a code.
pub open spec fn err_result(r: VmrtErr, s: Option<ItrErrCode>) -> bool {
    match s {
        None => r is Ok,
        Some(c) => r matches Err(e) && e.0 == c,
    }
}

/// Join: consume `k` values from the top, each one's bytes put in front of
/// the accumulated bytes; what is left of the stack and the joined value.
pub open spec fn join_steps(stack: Seq<Val>, k: nat, acc: Val, max: int) -> Result<(Seq<Val>, Val), ItrErrCode>
    decreases k,
{
    if k == 0 {
        Ok((stack, acc))
    } else if stack.len() == 0 {
        Err(ItrErrCode::StackError)
    } else {
        match spec_concat(stack.last(), acc, max) {
            Err(c) => Err(c),
            Ok(a2) => join_steps(stack.drop_last(), (k - 1) as nat, a2, max),
        }
    }
}

/// The `JOIN` instruction on a stack: the count on top (a `u8` of at least
/// three), then that many values joined into one byte string within the value
/// size limit, pushed back within the stack limit.
pub open spec fn spec_join(s: Seq<Val>, max: int, limit: int) -> Result<Seq<Val>, ItrErrCode> {
    if s.len() == 0 {
        Err(ItrErrCode::StackError)
    } else {
        match val_uint_below(s.last(), 0xff) {
            None => Err(ItrErrCode::CastBeUintFail),
            Some(x) => {
                if x < 3 {
                    Err(ItrErrCode::StackError)
                } else {
                    match join_steps(s.drop_last(), x as nat, Val::Bytes(Seq::empty()), max) {
                        Err(c) => Err(c),
                        Ok((rest, v)) => {
                            if !spec_size_ok(v, max) {
                                Err(ItrErrCode::OutOfValueSize)
                            } else if rest.len() >= limit {
                                Err(ItrErrCode::OutOfStack)
                            } else {
                                Ok(rest.push(v))
                            }
                        },
                    }
                }
            },
        }
    }
}

/// The values with their top `x` reversed.
pub open spec fn rev_top(t: Seq<Val>, x: int) -> Seq<Val> {
    t.subrange(0, t.len() - x) + t.subrange(t.len() - x, t.len() as int).reverse()
}

/// One push onto values held within `cap`: the values with `v` on top while
/// there is room, nothing when the stack is full.
pub open spec fn spec_push(s: Seq<Val>, cap: nat, v: Val) -> Option<Seq<Val>> {
    if s.len() < cap {
        Some(s.push(v))
    } else {
        None
    }
}

/// Pushes of `vs` in order onto `s`: the values after the last of them, or
/// nothing if one of them finds the stack full.
pub open spec fn spec_push_all(s: Seq<Val>, cap: nat, vs: Seq<Val>) -> Option<Seq<Val>>
    decreases vs.len(),
{
    if vs.len() == 0 {
        Some(s)
    } else {
        match spec_push_all(s, cap, vs.drop_last()) {
            None => None,
            Some(t) => spec_push(t, cap, vs.last()),
        }
    }
}

impl Stack {
    /// The values, bottom to top.
    pub open spec fn vals(&self) -> Seq<Val> {
        vals_of(self.datas@)
    }

    /// The most values the stack may hold.
    pub open spec fn cap(&self) -> nat {
        self.limit as nat
    }

    /// The stack holds no more values than its limit. A new or reset stack
    /// does, and every operation on a stack that does leaves one that does.
    pub open spec fn within_limit(&self) -> bool {
        self.vals().len() <= self.cap()
    }

    /// Give the values up.
    pub fn release(self) -> (r: Vec<Value>)
        ensures
            vals_of(r@) == self.vals(),
    {
        self.datas
    }

    /// An empty stack holding at most `lmt` values.
    pub fn new(lmt: usize) -> (r: Stack)
        ensures
            r.vals() == Seq::<Val>::empty(),
            r.cap() == lmt,
            r.within_limit(),
    {
        let r = Stack { datas: Vec::new(), limit: lmt };
        assert(r.vals() =~= Seq::<Val>::empty());
        r
    }

    /// Empty the stack and set a new limit.
    pub fn reset(&mut self, lmt: usize)
        ensures
            final(self).vals() == Seq::<Val>::empty(),
            final(self).cap() == lmt,
            final(self).within_limit(),
    {
        self.limit = lmt;
        self.datas.clear();
        assert(self.vals() =~= Seq::<Val>::empty());
    }

    /// Number of values.
    pub fn len(&self) -> (r: usize)
        ensures
            r == self.vals().len(),
            r == self.datas@.len(),
    {
        self.datas.len()
    }

    /// Push `num` `Nil`s, if the length stays within the limit.
    pub fn allocate(&mut self, num: u8) -> (r: VmrtErr)
        ensures
            old(self).vals().len() + num > old(self).cap() ==> (r matches Err(e) && e.0 == ItrErrCode::OutOfStack) && final(self).vals() == old(self).vals(),
            old(self).vals().len() + num <= old(self).cap() ==> r is Ok && final(self).vals() == old(self).vals() + Seq::new(num as nat, |i: int| Val::Nil),
            final(self).cap() == old(self).cap(),
            old(self).within_limit() ==> final(self).within_limit(),
    {
        let osz = self.datas.len();
        if num as usize > self.limit || osz > self.limit - num as usize {
            return Err(ItrErr::code(ItrErrCode::OutOfStack));
        }
        let mut k: u8 = 0;
        let ghost v0 = self.vals();
        while k < num
            invariant
                k <= num,
                self.limit == old(self).limit,
                self.vals() == v0 + Seq::new(k as nat, |i: int| Val::Nil),
            decreases num - k,
        {
            let ghost d0 = self.datas@;
            self.datas.push(Value::Nil);
            proof {
                lemma_vals_push(d0, Value::Nil);
            }
            k = k + 1;
            assert(self.vals() =~= v0 + Seq::new(k as nat, |i: int| Val::Nil));
        }
        Ok(())
    }

    /// The top value, to be changed in place.
    pub fn peek(&mut self) -> (r: VmrtRes<&mut Value>)
        ensures
            old(self).vals().len() == 0 ==> (r matches Err(e) && e.0 == ItrErrCode::StackError) && final(self).vals() == old(self).vals(),
            old(self).vals().len() > 0 ==> (r matches Ok(v) && (*v)@ == old(self).vals().last()
                && final(self).vals() == old(self).vals().drop_last().push((*final(v))@)),
            final(self).cap() == old(self).cap(),
            old(self).within_limit() ==> final(self).within_limit(),
    {
        let n = self.datas.len();
        if n == 0 {
            return Err(ItrErr::new(ItrErrCode::StackError, "Read empty stack"));
        }
        Ok(&mut self.datas[n - 1])
    }

    /// The value at `idx` from the bottom, to be changed in place; an index
    /// past the values is out of the stack.
    pub fn edit(&mut self, idx: u8) -> (r: VmrtRes<&mut Value>)
        ensures
            idx >= old(self).vals().len() ==> (r matches Err(e) && e.0 == ItrErrCode::OutOfStack) && final(self).vals() == old(self).vals(),
            idx < old(self).vals().len() ==> (r matches Ok(v) && (*v)@ == old(self).vals()[idx as int]
                && final(self).vals() == old(self).vals().update(idx as int, (*final(v))@)),
            final(self).cap() == old(self).cap(),
            old(self).within_limit() ==> final(self).within_limit(),
    {
        let i = idx as usize;
        if i >= self.datas.len() {
            return Err(ItrErr::code(ItrErrCode::OutOfStack));
        }
        Ok(&mut self.datas[i])
    }

    /// Pop the top value.
    pub fn pop(&mut self) -> (r: VmrtRes<Value>)
        ensures
            final(self).cap() == old(self).cap(),
            old(self).vals().len() == 0 ==> (r matches Err(e) && e.0 == ItrErrCode::StackError) && final(self).vals() == old(self).vals(),
            old(self).vals().len() > 0 ==> (r matches Ok(v) && v@ == old(self).vals().last()) && final(self).vals() == old(self).vals().drop_last(),
            old(self).within_limit() ==> final(self).within_limit(),
    {
        match self.datas.pop() {
            Some(v) => {
                assert(self.vals() =~= old(self).vals().drop_last());
                Ok(v)
            },
            None => Err(ItrErr::new(ItrErrCode::StackError, "Pop empty stack")),
        }
    }

    /// Pop the top `n` values, returned bottom to top.
    pub fn popn(&mut self, n: u8) -> (r: VmrtRes<Vec<Value>>)
        ensures
            final(self).cap() == old(self).cap(),
            n as int > old(self).vals().len() ==> (r matches Err(e) && e.0 == ItrErrCode::StackError) && final(self).vals() == old(self).vals(),
            (n as int) <= old(self).vals().len() ==> (r matches Ok(v) && vals_of(v@) == old(self).vals().subrange(old(self).vals().len() - n, old(self).vals().len() as int))
                && final(self).vals() == old(self).vals().subrange(0, old(self).vals().len() - n),
            old(self).within_limit() ==> final(self).within_limit(),
    {
        let cl = self.datas.len();
        if n == 0 {
            let v: Vec<Value> = Vec::new();
            assert(vals_of(v@) =~= old(self).vals().subrange(cl as int, cl as int));
            assert(self.vals() =~= old(self).vals().subrange(0, cl as int));
            return Ok(v);
        }
        let nn = n as usize;
        if nn > cl {
            return Err(ItrErr::new(ItrErrCode::StackError, "pop empty stack"));
        }
        let res = self.datas.split_off(cl - nn);
        assert(vals_of(res@) =~= old(self).vals().subrange(cl - nn, cl as int));
        assert(self.vals() =~= old(self).vals().subrange(0, cl - nn));
        Ok(res)
    }

    /// Drop the top `x` values, at least two.
    pub fn popx(&mut self, x: u8) -> (r: VmrtErr)
        ensures
            final(self).cap() == old(self).cap(),
            (x < 2 || x as int > old(self).vals().len()) ==> (r matches Err(e) && e.0 == ItrErrCode::StackError) && final(self).vals() == old(self).vals(),
            !(x < 2 || x as int > old(self).vals().len()) ==> r is Ok && final(self).vals() == old(self).vals().subrange(0, old(self).vals().len() - x),
            old(self).within_limit() ==> final(self).within_limit(),
    {
        let xx = x as usize;
        if xx < 2 {
            return Err(ItrErr::new(ItrErrCode::StackError, "inst popn param cannot less than 2"));
        }
        let cl = self.datas.len();
        if xx > cl {
            return Err(ItrErr::new(ItrErrCode::StackError, "pop empty stack"));
        }
        self.datas.truncate(cl - xx);
        assert(self.vals() =~= old(self).vals().subrange(0, cl - xx));
        Ok(())
    }

    /// Push a copy of the value `x` places below the top.
    pub fn dupx(&mut self, x: u8) -> (r: VmrtErr)
        ensures
            final(self).cap() == old(self).cap(),
            x as int >= old(self).vals().len() ==> (r matches Err(e) && e.0 == ItrErrCode::OutOfStack) && final(self).vals() == old(self).vals(),
            (x as int) < old(self).vals().len() && old(self).vals().len() >= old(self).cap() ==> (r matches Err(e) && e.0 == ItrErrCode::OutOfStack) && final(self).vals() == old(self).vals(),
            (x as int) < old(self).vals().len() && old(self).vals().len() < old(self).cap() ==> r is Ok
                && final(self).vals() == old(self).vals().push(old(self).vals()[old(self).vals().len() - x - 1]),
            old(self).within_limit() ==> final(self).within_limit(),
    {
        let n = self.datas.len();
        if x as usize >= n {
            return Err(ItrErr::code(ItrErrCode::OutOfStack));
        }
        let idx = n - x as usize - 1;
        let v = self.datas[idx].dup();
        assert(v@ == self.vals()[idx as int]);
        self.push(v)
    }

    /// Pop a count `x` (at least two) and reverse the `x` values below it: they
    /// are popped one by one, then pushed back top first. A pop that finds the
    /// stack empty, or a push that finds it full, stops the operation where it
    /// stands.
    pub fn reverse(&mut self) -> (r: VmrtErr)
        ensures
            final(self).cap() == old(self).cap(),
            ({
                let s = old(self).vals();
                let c = old(self).cap() as int;
                &&& s.len() == 0 ==> (r matches Err(e) && e.0 == ItrErrCode::StackError) && final(self).vals() == s
                &&& s.len() > 0 ==> match val_uint_below(s.last(), 0xff) {
                    None => (r matches Err(e) && e.0 == ItrErrCode::CastBeUintFail) && final(self).vals() == s.drop_last(),
                    Some(x) => {
                        let t = s.drop_last();
                        let m = t.len() - x;
                        if x < 2 {
                            (r matches Err(e) && e.0 == ItrErrCode::StackError) && final(self).vals() == t
                        } else if x > t.len() {
                            (r matches Err(e) && e.0 == ItrErrCode::StackError) && final(self).vals() == Seq::<Val>::empty()
                        } else if t.len() <= c {
                            r is Ok && final(self).vals() == rev_top(t, x)
                        } else {
                            (r matches Err(e) && e.0 == ItrErrCode::OutOfStack)
                                && final(self).vals() == rev_top(t, x).take(if m > c { m } else { c })
                        }
                    },
                }
            }),
            old(self).within_limit() ==> final(self).within_limit(),
    {
        let ghost s = old(self).vals();
        let xv = self.pop()?;
        let x = xv.checked_u8()?;
        if x < 2 {
            return Err(ItrErr::new(ItrErrCode::StackError, "inst reverse param cannot less than 2"));
        }
        let ghost t = self.vals();
        assert(t == s.drop_last());
        let mut list: Vec<Value> = Vec::new();
        let mut k: u8 = 0;
        while k < x
            invariant
                k <= x,
                self.limit == old(self).limit,
                s == old(self).vals(),
                s.len() > 0,
                t == s.drop_last(),
                val_uint_below(s.last(), 0xff) == Some(x as int),
                k <= t.len(),
                self.vals() == t.subrange(0, t.len() - k),
                vals_of(list@) == t.subrange(t.len() - k, t.len() as int).reverse(),
            decreases x - k,
        {
            let ghost before = self.vals();
            let v = match self.pop() {
                Ok(v) => v,
                Err(e) => {
                    assert(t.len() == k);
                    assert(before =~= Seq::<Val>::empty());
                    return Err(e);
                },
            };
            let ghost l0 = vals_of(list@);
            list.push(v);
            k = k + 1;
            proof {
                assert(self.vals() =~= t.subrange(0, t.len() - k));
                assert(vals_of(list@) =~= l0.push(t[t.len() - k]));
                assert(t.subrange(t.len() - k, t.len() as int).reverse() =~= t.subrange(t.len() - k + 1, t.len() as int).reverse().push(t[t.len() - k]));
            }
        }
        let ghost m = t.len() - x;
        let ghost lst = t.subrange(m, t.len() as int).reverse();
        assert(rev_top(t, x as int) == t.take(m) + lst) by {
            assert(t.subrange(0, m) =~= t.take(m));
        }
        let mut j: usize = 0;
        while list.len() > 0
            invariant
                self.limit == old(self).limit,
                s == old(self).vals(),
                s.len() > 0,
                t == s.drop_last(),
                val_uint_below(s.last(), 0xff) == Some(x as int),
                2 <= x <= t.len(),
                m == t.len() - x,
                lst == t.subrange(m, t.len() as int).reverse(),
                j + list@.len() == x,
                self.vals() == t.take(m) + lst.take(j as int),
                vals_of(list@) == lst.skip(j as int),
                j == 0 || m + j <= self.limit,
            decreases list@.len(),
        {
            let ghost l0 = vals_of(list@);
            let ghost ls0 = list@;
            let a = list.remove(0);
            proof {
                assert(list@ == ls0.remove(0));
                assert forall|i: int| 0 <= i < list@.len() implies vals_of(list@)[i] == l0.drop_first()[i] by {
                    assert(list@[i] == ls0[i + 1]);
                }
                assert(vals_of(list@) =~= l0.drop_first());
                assert(a@ == l0[0]);
                assert(l0[0] == lst[j as int]);
                assert(vals_of(list@) =~= lst.skip(j + 1));
            }
            match self.push(a) {
                Ok(()) => {},
                Err(e) => {
                    proof {
                        let c = self.limit as int;
                        assert(rev_top(t, x as int).take(if m > c { m } else { c }) =~= t.take(m) + lst.take(j as int));
                    }
                    return Err(e);
                },
            }
            j = j + 1;
            proof {
                assert(self.vals() =~= t.take(m) + lst.take(j as int));
            }
        }
        assert(lst.take(x as int) =~= lst);
        Ok(())
    }

    /// Replace the two top values by the bytes of the lower followed by the
    /// bytes of the upper.
    pub fn cat(&mut self, cap: &SpaceCap) -> (r: VmrtErr)
        ensures
            final(self).cap() == old(self).cap(),
            old(self).vals().len() < 2 ==> (r matches Err(e) && e.0 == ItrErrCode::StackError)
                && final(self).vals() == old(self).vals().take(0),
            old(self).vals().len() >= 2 ==> ({
                let s = old(self).vals();
                match spec_concat(s[s.len() - 2], s.last(), cap.max_value_size as int) {
                    Ok(v) => r is Ok && final(self).vals() == s.drop_last().drop_last().push(v),
                    Err(c) => (r matches Err(e) && e.0 == c) && final(self).vals() == s.drop_last(),
                }
            }),
            old(self).within_limit() ==> final(self).within_limit(),
    {
        let y = self.pop()?;
        let n = self.datas.len();
        if n == 0 {
            return Err(ItrErr::new(ItrErrCode::StackError, "Read empty stack"));
        }
        proof {
            let s = old(self).vals();
            assert(self.vals().len() == n);
            assert(self.vals()[n - 1] == s[s.len() - 2]);
            assert(self.vals()[n - 1] == val_of(self.datas@[n - 1]));
        }
        let v = Value::concat(&self.datas[n - 1], &y, cap)?;
        let ghost s1 = self.vals();
        self.datas.set(n - 1, v);
        assert(self.vals() =~= s1.drop_last().push(val_of(self.datas@[n - 1])));
        Ok(())
    }

    /// Pop a count `x` (at least three) and the `x` values below it, and push
    /// their bytes joined bottom to top.
    pub fn join(&mut self, cap: &SpaceCap) -> (r: VmrtErr)
        ensures
            final(self).cap() == old(self).cap(),
            match spec_join(old(self).vals(), cap.max_value_size as int, old(self).cap() as int) {
                Ok(s) => r is Ok && final(self).vals() == s,
                Err(c) => r matches Err(e) && e.0 == c,
            },
            old(self).within_limit() ==> final(self).within_limit(),
    {
        let xv = self.pop()?;
        let x = xv.checked_u8()?;
        if x < 3 {
            return Err(ItrErr::new(ItrErrCode::StackError, "inst join param cannot less than 3"));
        }
        let ghost max = cap.max_value_size as int;
        let ghost rest0 = self.vals();
        let mut value = Value::empty_bytes();
        let mut k: u8 = 0;
        while k < x
            invariant
                k <= x,
                self.limit == old(self).limit,
                join_steps(rest0, x as nat, Val::Bytes(Seq::empty()), max) == join_steps(self.vals(), (x - k) as nat, value@, max),
                max == cap.max_value_size as int,
                old(self).vals().len() > 0,
                rest0 == old(self).vals().drop_last(),
                val_uint_below(old(self).vals().last(), 0xff) == Some(x as int),
                x >= 3,
                self.vals().len() < old(self).vals().len(),
                self.limit == old(self).limit,
            decreases x - k,
        {
            let ghost before = self.vals();
            let top = self.pop()?;
            value = Value::concat(&top, &value, cap)?;
            proof {
                assert(before.len() > 0);
                assert(self.vals() == before.drop_last());
            }
            k = k + 1;
        }
        let checked = value.valid(cap)?;
        self.push(checked)
    }

    /// Push a value below the limit.
    pub fn push(&mut self, it: Value) -> (r: VmrtErr)
        ensures
            final(self).cap() == old(self).cap(),
            match spec_push(old(self).vals(), old(self).cap(), it@) {
                Some(t) => r is Ok && final(self).vals() == t,
                None => (r matches Err(e) && e.0 == ItrErrCode::OutOfStack) && final(self).vals() == old(self).vals(),
            },
            old(self).within_limit() ==> final(self).within_limit(),
    {
        if self.datas.len() >= self.limit {
            return Err(ItrErr::code(ItrErrCode::OutOfStack));
        }
        self.datas.push(it);
        assert(self.vals() =~= old(self).vals().push(it@));
        Ok(())
    }

    /// Overwrite the value at `idx`.
    pub fn save(&mut self, idx: u16, it: Value) -> (r: VmrtErr)
        ensures
            final(self).cap() == old(self).cap(),
            idx >= old(self).vals().len() ==> (r matches Err(e) && e.0 == ItrErrCode::LocalError) && final(self).vals() == old(self).vals(),
            idx < old(self).vals().len() ==> r is Ok && final(self).vals() == old(self).vals().update(idx as int, it@),
            old(self).within_limit() ==> final(self).within_limit(),
    {
        let i = idx as usize;
        if i >= self.datas.len() {
            return Err(ItrErr::new(ItrErrCode::LocalError, "Save local overflow"));
        }
        let ghost v = it@;
        self.datas.set(i, it);
        assert(self.vals() =~= old(self).vals().update(idx as int, v));
        Ok(())
    }

    /// A copy of the value at `idx`.
    pub fn load(&self, idx: usize) -> (r: VmrtRes<Value>)
        ensures
            idx >= self.vals().len() ==> (r matches Err(e) && e.0 == ItrErrCode::LocalError),
            idx < self.vals().len() ==> (r matches Ok(v) && v@ == self.vals()[idx as int]),
    {
        if idx >= self.datas.len() {
            return Err(ItrErr::new(ItrErrCode::LocalError, "Read local overflow"));
        }
        Ok(self.datas[idx].dup())
    }

    /// A copy of the top value.
    pub fn last(&self) -> (r: VmrtRes<Value>)
        ensures
            self.vals().len() == 0 ==> (r matches Err(e) && e.0 == ItrErrCode::StackError),
            self.vals().len() > 0 ==> (r matches Ok(v) && v@ == self.vals().last()),
    {
        self.lastn(0)
    }

    /// A copy of the value `n` places below the top.
    pub fn lastn(&self, n: u16) -> (r: VmrtRes<Value>)
        ensures
            n >= self.vals().len() ==> (r matches Err(e) && e.0 == ItrErrCode::StackError),
            n < self.vals().len() ==> (r matches Ok(v) && v@ == self.vals()[self.vals().len() - n - 1]),
    {
        let nn = n as usize;
        let l = self.datas.len();
        if nn >= l {
            return Err(ItrErr::new(ItrErrCode::StackError, "Read stack overflow"));
        }
        Ok(self.datas[l - nn - 1].dup())
    }

    /// Exchange the two top values.
    pub fn swap(&mut self) -> (r: VmrtErr)
        ensures
            final(self).cap() == old(self).cap(),
            old(self).vals().len() < 2 ==> (r matches Err(e) && e.0 == ItrErrCode::StackError) && final(self).vals() == old(self).vals(),
            old(self).vals().len() >= 2 ==> r is Ok && ({
                let s = old(self).vals();
                final(self).vals() == s.update(s.len() - 1, s[s.len() - 2]).update(s.len() - 2, s[s.len() - 1])
            }),
            old(self).within_limit() ==> final(self).within_limit(),
    {
        let l = self.datas.len();
        if l < 2 {
            return Err(ItrErr::new(ItrErrCode::StackError, "Read empty stack"));
        }
        let b = self.datas.pop().unwrap();
        let a = self.datas.pop().unwrap();
        self.datas.push(b);
        self.datas.push(a);
        proof {
            let s = old(self).vals();
            assert(self.vals() =~= s.update(s.len() - 1, s[s.len() - 2]).update(s.len() - 2, s[s.len() - 1]));
        }
        Ok(())
    }

    /// Push a list of values on top, if they fit within the limit.
    pub fn append(&mut self, vs: Vec<Value>) -> (r: VmrtErr)
        ensures
            final(self).cap() == old(self).cap(),
            vs@.len() + old(self).vals().len() > old(self).cap() ==> (r matches Err(e) && e.0 == ItrErrCode::OutOfStack) && final(self).vals() == old(self).vals(),
            vs@.len() + old(self).vals().len() <= old(self).cap() ==> r is Ok && final(self).vals() == old(self).vals() + vals_of(vs@),
            old(self).within_limit() ==> final(self).within_limit(),
    {
        let s = vs.len();
        if s > self.limit || self.datas.len() > self.limit - s {
            return Err(ItrErr::code(ItrErrCode::OutOfStack));
        }
        let mut more = vs;
        let ghost add = vals_of(more@);
        self.datas.append(&mut more);
        assert(self.vals() =~= old(self).vals() + add);
        Ok(())
    }
}

/// The bytes of scalar values laid end to end, bottom first.
pub open spec fn bytes_bottom_up(vs: Seq<Val>) -> Seq<u8>
    decreases vs.len(),
{
    if vs.len() == 0 {
        Seq::empty()
    } else {
        bytes_bottom_up(vs.drop_last()) + match val_scalar_bytes(vs.last()) { Some(b) => b, None => Seq::empty() }
    }
}

/// Every value is a scalar with bytes.
pub open spec fn all_scalar(vs: Seq<Val>) -> bool {
    forall|i: int| 0 <= i < vs.len() ==> #[trigger] val_scalar_bytes(vs[i]) is Some
}

/// Joining the `vs` on top of `rest` in front of `acc` gives their bytes,
/// bottom first, followed by `acc`.
proof fn lemma_join_steps_bytes(rest: Seq<Val>, vs: Seq<Val>, acc: Seq<u8>, max: int)
    requires
        all_scalar(vs),
        bytes_bottom_up(vs).len() + acc.len() <= max,
    ensures
        join_steps(rest + vs, vs.len(), Val::Bytes(acc), max) == Ok::<(Seq<Val>, Val), ItrErrCode>((rest, Val::Bytes(bytes_bottom_up(vs) + acc))),
    decreases vs.len(),
{
    if vs.len() == 0 {
        assert(rest + vs =~= rest);
        assert(bytes_bottom_up(vs) + acc =~= acc);
    } else {
        let st = rest + vs;
        let init = vs.drop_last();
        let top = vs.last();
        assert(val_scalar_bytes(vs[vs.len() - 1]) is Some);
        let b = val_scalar_bytes(top).unwrap();
        assert(st.last() == top);
        assert(st.drop_last() =~= rest + init);
        assert(all_scalar(init)) by {
            assert forall|i: int| 0 <= i < init.len() implies #[trigger] val_scalar_bytes(init[i]) is Some by {
                assert(init[i] == vs[i]);
            }
        }
        assert(spec_concat(top, Val::Bytes(acc), max) == Ok::<Val, ItrErrCode>(Val::Bytes(b + acc)));
        lemma_join_steps_bytes(rest, init, b + acc, max);
        assert(bytes_bottom_up(init) + (b + acc) =~= bytes_bottom_up(vs) + acc);
    }
}

/// `JOIN` of `n` values (three to 255) under the count `n` pushes one byte
/// string: their bytes laid end to end from the bottom value up, the same as
/// catenating them one after another from the bottom. The values below stay.
pub proof fn lemma_join_is_bottom_up_cat(rest: Seq<Val>, vs: Seq<Val>, max: int, limit: int)
    requires
        3 <= vs.len() <= 255,
        all_scalar(vs),
        bytes_bottom_up(vs).len() <= max,
        rest.len() < limit,
    ensures
        spec_join(rest + vs + seq![Val::U8(vs.len() as u8)], max, limit) == Ok::<Seq<Val>, ItrErrCode>(rest.push(Val::Bytes(bytes_bottom_up(vs)))),
{
    let s = rest + vs + seq![Val::U8(vs.len() as u8)];
    assert(s.last() == Val::U8(vs.len() as u8));
    assert(s.drop_last() =~= rest + vs);
    lemma_join_steps_bytes(rest, vs, Seq::empty(), max);
    assert(bytes_bottom_up(vs) + Seq::<u8>::empty() =~= bytes_bottom_up(vs));
}

/// Pushes of values that fit within `cap` onto an empty stack all succeed.
proof fn lemma_push_all_fits(cap: nat, ws: Seq<Val>)
    requires
        ws.len() <= cap,
    ensures
        spec_push_all(Seq::empty(), cap, ws) == Some(ws),
    decreases ws.len(),
{
    if ws.len() > 0 {
        lemma_push_all_fits(cap, ws.drop_last());
        assert(ws.drop_last().push(ws.last()) =~= ws);
    }
}

/// After a reset to limit `cap` the stack is empty; from there each of the
/// first `cap` pushes succeeds, leaving the values pushed so far, and the
/// push after them fails.
pub proof fn lemma_reset_then_pushes(cap: nat, vs: Seq<Val>, v: Val)
    requires
        vs.len() == cap,
    ensures
        forall|k: int| 0 <= k <= cap ==> #[trigger] spec_push_all(Seq::empty(), cap, vs.take(k)) == Some(vs.take(k)),
        spec_push_all(Seq::empty(), cap, vs) == Some(vs),
        spec_push(vs, cap, v) is None,
        spec_push_all(Seq::empty(), cap, vs.push(v)) is None,
{
    assert forall|k: int| 0 <= k <= cap implies #[trigger] spec_push_all(Seq::<Val>::empty(), cap, vs.take(k)) == Some(vs.take(k)) by {
        lemma_push_all_fits(cap, vs.take(k));
    }
    lemma_push_all_fits(cap, vs);
    assert(vs.push(v).drop_last() =~= vs);
}

/// A push that succeeded is undone by a pop: the pop gives the pushed value
/// back and leaves the values as they were.
pub proof fn lemma_push_then_pop(s: Seq<Val>, v: Val)
    ensures
        s.push(v).len() > 0,
        s.push(v).last() == v,
        s.push(v).drop_last() == s,
{
    assert(s.push(v).drop_last() =~= s);
}

/// Swapping the two top values twice leaves the stack as it was.
pub proof fn lemma_swap_twice(s: Seq<Val>)
    requires
        s.len() >= 2,
    ensures
        ({
            let t = s.update(s.len() - 1, s[s.len() - 2]).update(s.len() - 2, s[s.len() - 1]);
            t.len() == s.len() && t.update(t.len() - 1, t[t.len() - 2]).update(t.len() - 2, t[t.len() - 1]) == s
        }),
{
    let t = s.update(s.len() - 1, s[s.len() - 2]).update(s.len() - 2, s[s.len() - 1]);
    assert(t.update(t.len() - 1, t[t.len() - 2]).update(t.len() - 2, t[t.len() - 1]) =~= s);
}

/// Popping `n` values and appending them back restores the stack.
pub proof fn lemma_popn_then_append(s: Seq<Val>, n: int)
    requires
        0 <= n <= s.len(),
    ensures
        s.subrange(0, s.len() - n) + s.subrange(s.len() - n, s.len() as int) == s,
{
    assert(s.subrange(0, s.len() - n) + s.subrange(s.len() - n, s.len() as int) =~= s);
}

} // verus!
