use sdr::Signal;
use sdr::signal::sources::{from_iter, FromIter};
use sdr::signal::adapters::tee::TeeBuffer;
use sdr::signal::adapters::block::TeeDeque;
use sdr::signal::adapters::resample::Resample;
use sdr::resample::{Error, IdentityConverter};
use sdr::signal::adapters::block::Block;

fn drain_branch(t: &mut TeeBuffer<FromIter<i64>>, id: bool) -> Vec<i64> {
    let mut got = Vec::new();
    while let Some(v) = t.next(id) {
        got.push(v);
    }
    got
}

#[test]
fn tee_both_branches_see_everything() {
    let src = from_iter(10u32, vec![10i64, 20, 30]);
    let mut t = TeeBuffer::new(src);
    assert_eq!(t.rate(), 10);
    // one branch first, the other afterwards
    assert_eq!(drain_branch(&mut t, false), vec![10, 20, 30]);
    assert_eq!(drain_branch(&mut t, true), vec![10, 20, 30]);
    assert_eq!(t.next(false), None);
    assert_eq!(t.next(true), None);
}

#[test]
fn tee_interleaved_draw_order() {
    let src = from_iter(10u32, vec![1i64, 2, 3, 4]);
    let mut t = TeeBuffer::new(src);
    let mut a = Vec::new();
    let mut b = Vec::new();
    // a pulls two ahead, b catches up, then mixed
    a.push(t.next(false).unwrap());
    a.push(t.next(false).unwrap());
    b.push(t.next(true).unwrap());
    a.push(t.next(false).unwrap());
    b.push(t.next(true).unwrap());
    b.push(t.next(true).unwrap());
    b.push(t.next(true).unwrap());
    a.push(t.next(false).unwrap());
    assert_eq!(a, vec![1, 2, 3, 4]);
    assert_eq!(b, vec![1, 2, 3, 4]);
    assert_eq!(t.next(false), None);
    assert_eq!(t.next(true), None);
}

#[test]
fn block_ring_orders_and_recycles() {
    let mut ring: TeeDeque<i64> = TeeDeque::new();
    assert_eq!(ring.push_block(100), None);
    assert_eq!(ring.push_block(200), None);
    // consumer 0 reads oldest first
    let i = ring.try_pop_index(0).unwrap();
    assert_eq!(*ring.get(i), 100);
    let i = ring.try_pop_index(0).unwrap();
    assert_eq!(*ring.get(i), 200);
    assert_eq!(ring.try_pop_index(0), None);
    // everything read: the oldest block comes back for reuse
    assert_eq!(ring.push_block(300), Some(100));
    let i = ring.try_pop_index(0).unwrap();
    assert_eq!(*ring.get(i), 300);
}

#[test]
fn block_ring_waits_for_slowest_consumer() {
    let mut ring: TeeDeque<i64> = TeeDeque::new();
    let lagging = ring.add_consumer();
    assert_eq!(lagging, 1);
    assert_eq!(ring.push_block(1), None);
    // consumer 0 reads, the lagging consumer does not
    let i = ring.try_pop_index(0).unwrap();
    assert_eq!(*ring.get(i), 1);
    // nothing may be recycled while the lagging consumer still needs it
    assert_eq!(ring.push_block(2), None);
    let i = ring.try_pop_index(lagging).unwrap();
    assert_eq!(*ring.get(i), 1);
    let i = ring.try_pop_index(lagging).unwrap();
    assert_eq!(*ring.get(i), 2);
}

#[test]
fn resample_identity_preserves_count_and_ends() {
    let n = 100usize;
    let data: Vec<i64> = (0..n as i64).collect();
    let src = from_iter(1000u32, data.clone());
    let mut rs = Resample::new(src, IdentityConverter, 1000);
    assert_eq!(rs.rate(), 1000);
    let mut got = Vec::new();
    while let Some(v) = rs.next() {
        got.push(v);
    }
    // ratio one: the count tracks the input exactly
    assert_eq!(got, data);
    // end of stream is permanent
    assert_eq!(rs.next(), None);
    assert_eq!(rs.next(), None);
    assert_eq!(rs.last_error(), None);
}

#[test]
fn resample_surfaces_converter_failure() {
    let src = from_iter(1000u32, vec![1i64, 2, 3]);
    let mut rs = Resample::new(src, IdentityConverter, 1000);
    // a converter failure is fatal: recorded, the stream ends, and it
    // is never silently swallowed
    let ended = rs.absorb(Err(Error::BadRatio));
    assert!(ended);
    assert_eq!(rs.last_error(), Some(Error::BadRatio));
    assert_eq!(rs.next(), None);
    assert_eq!(rs.next(), None);
}

#[test]
fn resample_absorb_drains_converter_output() {
    let src = from_iter(1000u32, Vec::<i64>::new());
    let mut rs = Resample::new(src, IdentityConverter, 1000);
    rs.refill();
    let ended = rs.absorb(Ok((vec![7i64, 8, 9], 0)));
    assert!(!ended);
    assert_eq!(rs.next(), Some(7));
    assert_eq!(rs.next(), Some(8));
    assert_eq!(rs.next(), Some(9));
    // the block is spent and the source empty: completion follows
    assert_eq!(rs.next(), None);
    assert_eq!(rs.last_error(), None);
}

#[test]
fn block_cursor_drains_in_order() {
    let mut c: Block<i64> = Block::new();
    assert!(c.exhausted());
    assert_eq!(c.next_sample(), None);
    c.refill(vec![5, 6]);
    assert_eq!(c.next_sample(), Some(5));
    assert_eq!(c.next_sample(), Some(6));
    assert!(c.exhausted());
    assert_eq!(c.next_sample(), None);
    c.refill(vec![7]);
    assert_eq!(c.next_sample(), Some(7));
}

#[test]
fn resample_empty_source_ends_immediately() {
    let src = from_iter(1000u32, Vec::<i64>::new());
    let mut rs = Resample::new(src, IdentityConverter, 500);
    assert_eq!(rs.next(), None);
    assert_eq!(rs.next(), None);
    assert_eq!(rs.last_error(), None);
}
