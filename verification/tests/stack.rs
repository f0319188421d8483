use vm::cap::SpaceCap;
use vm::error::ItrErrCode;
use vm::stack::Stack;
use vm::value::Value;

fn vals(s: &Stack) -> Vec<Value> {
    let mut out = Vec::new();
    for i in 0..s.len() {
        out.push(s.load(i).unwrap());
    }
    out
}

#[test]
fn push_then_pop_gives_the_value_back() {
    let mut s = Stack::new(4);
    s.push(Value::U8(1)).unwrap();
    let before = vals(&s);
    s.push(Value::U16(9)).unwrap();
    assert_eq!(s.pop().unwrap(), Value::U16(9));
    assert_eq!(vals(&s), before);
}

#[test]
fn swap_twice_restores() {
    let mut s = Stack::new(4);
    s.push(Value::U8(1)).unwrap();
    s.push(Value::U8(2)).unwrap();
    s.swap().unwrap();
    assert_eq!(vals(&s), vec![Value::U8(2), Value::U8(1)]);
    s.swap().unwrap();
    assert_eq!(vals(&s), vec![Value::U8(1), Value::U8(2)]);
}

#[test]
fn popn_then_append_restores() {
    let mut s = Stack::new(8);
    for i in 0..5u8 {
        s.push(Value::U8(i)).unwrap();
    }
    let before = vals(&s);
    let top = s.popn(3).unwrap();
    assert_eq!(top, vec![Value::U8(2), Value::U8(3), Value::U8(4)]);
    assert_eq!(s.len(), 2);
    s.append(top).unwrap();
    assert_eq!(vals(&s), before);
}

#[test]
fn limits_and_empty_stack_errors() {
    let mut s = Stack::new(2);
    assert_eq!(s.pop().unwrap_err().0, ItrErrCode::StackError);
    s.push(Value::Nil).unwrap();
    s.push(Value::Nil).unwrap();
    assert_eq!(s.push(Value::Nil).unwrap_err().0, ItrErrCode::OutOfStack);
    assert_eq!(s.len(), 2);
    let mut t = Stack::new(3);
    assert_eq!(t.allocate(4).unwrap_err().0, ItrErrCode::OutOfStack);
    assert_eq!(t.len(), 0);
    t.allocate(2).unwrap();
    assert_eq!(vals(&t), vec![Value::Nil, Value::Nil]);
    assert_eq!(t.allocate(2).unwrap_err().0, ItrErrCode::OutOfStack);
    assert_eq!(t.len(), 2);
    assert_eq!(t.popx(1).unwrap_err().0, ItrErrCode::StackError);
    assert_eq!(t.save(5, Value::U8(1)).unwrap_err().0, ItrErrCode::LocalError);
    assert_eq!(t.load(5).unwrap_err().0, ItrErrCode::LocalError);
    assert_eq!(t.lastn(9).unwrap_err().0, ItrErrCode::StackError);
}

#[test]
fn dupx_copies_from_below_the_top() {
    let mut s = Stack::new(4);
    s.push(Value::U8(7)).unwrap();
    s.push(Value::U8(8)).unwrap();
    s.dupx(1).unwrap();
    assert_eq!(vals(&s), vec![Value::U8(7), Value::U8(8), Value::U8(7)]);
    assert_eq!(s.dupx(3).unwrap_err().0, ItrErrCode::OutOfStack);
}

#[test]
fn cat_joins_two_scalars_big_endian() {
    let cap = SpaceCap::new(0);
    let mut s = Stack::new(4);
    s.push(Value::U16(0x0102)).unwrap();
    s.push(Value::bytes(vec![3])).unwrap();
    s.cat(&cap).unwrap();
    assert_eq!(vals(&s), vec![Value::bytes(vec![1, 2, 3])]);
}

#[test]
fn allocate_may_fill_the_stack_to_its_limit() {
    let mut s = Stack::new(2);
    s.allocate(2).unwrap();
    assert_eq!(vals(&s), vec![Value::Nil, Value::Nil]);
    assert_eq!(s.push(Value::U8(1)).unwrap_err().0, ItrErrCode::OutOfStack);
    s.allocate(0).unwrap();
    assert_eq!(s.len(), 2);
}

#[test]
fn reverse_turns_the_values_under_the_count_around() {
    let mut s = Stack::new(8);
    s.push(Value::U8(1)).unwrap();
    s.push(Value::U8(2)).unwrap();
    s.push(Value::U8(3)).unwrap();
    s.push(Value::U8(3)).unwrap();
    s.reverse().unwrap();
    assert_eq!(vals(&s), vec![Value::U8(3), Value::U8(2), Value::U8(1)]);
}

#[test]
fn reverse_leaves_the_values_below_alone() {
    let mut s = Stack::new(8);
    for i in 1..=5u8 {
        s.push(Value::U8(i)).unwrap();
    }
    s.push(Value::U8(2)).unwrap();
    s.reverse().unwrap();
    assert_eq!(vals(&s), vec![Value::U8(1), Value::U8(2), Value::U8(3), Value::U8(5), Value::U8(4)]);
}

#[test]
fn reverse_failures_and_what_they_leave() {
    let mut empty = Stack::new(4);
    assert_eq!(empty.reverse().unwrap_err().0, ItrErrCode::StackError);
    assert_eq!(empty.len(), 0);

    let mut one = Stack::new(4);
    one.push(Value::U8(9)).unwrap();
    one.push(Value::U8(1)).unwrap();
    assert_eq!(one.reverse().unwrap_err().0, ItrErrCode::StackError);
    assert_eq!(vals(&one), vec![Value::U8(9)]);

    let mut short = Stack::new(4);
    short.push(Value::U8(7)).unwrap();
    short.push(Value::U8(3)).unwrap();
    assert_eq!(short.reverse().unwrap_err().0, ItrErrCode::StackError);
    assert_eq!(short.len(), 0);

    let mut bad = Stack::new(4);
    bad.push(Value::U8(7)).unwrap();
    bad.push(Value::bytes(vec![1, 2])).unwrap();
    assert_eq!(bad.reverse().unwrap_err().0, ItrErrCode::CastBeUintFail);
    assert_eq!(vals(&bad), vec![Value::U8(7)]);
}

#[test]
fn after_reset_exactly_the_limit_of_pushes_succeed() {
    let mut s = Stack::new(1);
    s.push(Value::U8(1)).unwrap();
    s.reset(3);
    assert_eq!(s.len(), 0);
    for i in 0..3u8 {
        s.push(Value::U8(i)).unwrap();
        assert_eq!(s.len(), i as usize + 1);
    }
    assert_eq!(s.push(Value::U8(9)).unwrap_err().0, ItrErrCode::OutOfStack);
    assert_eq!(vals(&s), vec![Value::U8(0), Value::U8(1), Value::U8(2)]);
}

#[test]
fn length_stays_within_the_limit() {
    let cap = SpaceCap::new(0);
    let mut s = Stack::new(3);
    for _ in 0..5 {
        let _ = s.push(Value::U8(1));
        assert!(s.len() <= 3);
    }
    let _ = s.allocate(2);
    assert!(s.len() <= 3);
    let _ = s.dupx(0);
    assert!(s.len() <= 3);
    let _ = s.append(vec![Value::Nil]);
    assert!(s.len() <= 3);
    s.pop().unwrap();
    s.push(Value::U8(2)).unwrap();
    let _ = s.reverse();
    assert!(s.len() <= 3);
    s.push(Value::U8(4)).unwrap();
    assert_eq!(s.push(Value::U8(5)).unwrap_err().0, ItrErrCode::OutOfStack);
    let _ = s.cat(&cap);
    assert!(s.len() <= 3);
}

#[test]
fn peek_and_edit_change_values_in_place() {
    let mut s = Stack::new(4);
    assert_eq!(s.peek().unwrap_err().0, ItrErrCode::StackError);
    s.push(Value::U8(1)).unwrap();
    s.push(Value::U8(2)).unwrap();
    *s.peek().unwrap() = Value::U8(20);
    *s.edit(0).unwrap() = Value::U8(10);
    assert_eq!(vals(&s), vec![Value::U8(10), Value::U8(20)]);
    assert_eq!(s.edit(2).unwrap_err().0, ItrErrCode::OutOfStack);
    assert_eq!(s.edit(5).unwrap_err().0, ItrErrCode::OutOfStack);
}
