use rust_decimal::prelude::FromPrimitive;
use rust_decimal::Decimal;
use technical_analysis::CircularBuffer;
use technical_analysis::IndicatorValue;

fn iv(x: f64) -> IndicatorValue {
    let d = Decimal::from_f64(x).unwrap();
    IndicatorValue::from_parts(d.mantissa(), d.scale()).unwrap()
}

#[test]
fn test_new_buffer() {
    let capacity = 4;
    let buffer = CircularBuffer::new(capacity);

    assert_eq!(buffer.len(), 0);
    assert_eq!(buffer.capacity(), capacity);
    assert!(!buffer.is_full());
}

#[test]
fn test_push_and_get() {
    let mut buffer = CircularBuffer::new(4);

    buffer.push(iv(1.0));
    buffer.push(iv(2.0));
    buffer.push(iv(3.0));

    assert_eq!(buffer.get(0), Some(&iv(3.0)));
    assert_eq!(buffer.get(1), Some(&iv(2.0)));
    assert_eq!(buffer.get(2), Some(&iv(1.0)));
}

#[test]
fn test_push_overflow() {
    let mut buffer = CircularBuffer::new(3);

    buffer.push(iv(1.0));
    buffer.push(iv(2.0));
    buffer.push(iv(3.0));
    buffer.push(iv(4.0));

    assert_eq!(buffer.get(0), Some(&iv(4.0)));
    assert_eq!(buffer.get(1), Some(&iv(3.0)));
    assert_eq!(buffer.get(2), Some(&iv(2.0)));
}

#[test]
fn test_clear() {
    let mut buffer = CircularBuffer::new(4);

    buffer.push(iv(1.0));
    buffer.push(iv(2.0));

    assert_eq!(buffer.len(), 2);

    buffer.clear();
    assert_eq!(buffer.len(), 0);
    assert!(!buffer.is_full());
}

#[test]
fn test_iterator() {
    let mut buffer = CircularBuffer::new(4);

    buffer.push(iv(1.0));
    buffer.push(iv(2.0));
    buffer.push(iv(3.0));

    let mut iter = buffer.iter();
    assert_eq!(iter.next(), Some(&iv(3.0)));
    assert_eq!(iter.next(), Some(&iv(2.0)));
    assert_eq!(iter.next(), Some(&iv(1.0)));
}

#[test]
fn test_reversed_iterator() {
    let mut buffer = CircularBuffer::new(3);

    buffer.push(iv(1.0));
    buffer.push(iv(2.0));
    buffer.push(iv(3.0));

    let mut iter = buffer.iter_reversed();
    assert_eq!(iter.next(), Some(&iv(1.0)));
    assert_eq!(iter.next(), Some(&iv(2.0)));
    assert_eq!(iter.next(), Some(&iv(3.0)));
}

#[test]
fn test_full_buffer_push_and_iter() {
    let mut buffer = CircularBuffer::new(3);

    buffer.push(iv(1.0));
    buffer.push(iv(2.0));
    buffer.push(iv(3.0));
    buffer.push(iv(4.0));

    let mut iter = buffer.iter();
    assert_eq!(iter.next(), Some(&iv(4.0)));
    assert_eq!(iter.next(), Some(&iv(3.0)));
    assert_eq!(iter.next(), Some(&iv(2.0)));
}

#[test]
fn test_full_buffer_push_and_reversed_iter() {
    let mut buffer = CircularBuffer::new(3);

    buffer.push(iv(1.0));
    buffer.push(iv(2.0));
    buffer.push(iv(3.0));
    buffer.push(iv(4.0));

    let mut iter = buffer.iter_reversed();
    assert_eq!(iter.next(), Some(&iv(2.0)));
    assert_eq!(iter.next(), Some(&iv(3.0)));
    assert_eq!(iter.next(), Some(&iv(4.0)));
}

#[test]
fn test_is_full() {
    let mut buffer = CircularBuffer::new(2);

    assert!(!buffer.is_full());
    buffer.push(iv(1.0));
    buffer.push(iv(2.0));
    assert!(buffer.is_full());
    buffer.push(iv(3.0));
    assert!(buffer.is_full());
}

#[test]
fn partly_filled_buffer_is_walked_to_its_end() {
    let mut buffer = CircularBuffer::new(4);
    buffer.push(iv(1.0));
    buffer.push(iv(2.0));

    let mut iter = buffer.iter();
    assert_eq!(iter.next(), Some(&iv(2.0)));
    assert_eq!(iter.next(), Some(&iv(1.0)));
    assert_eq!(iter.next(), None);

    let mut back = buffer.iter_reversed();
    assert_eq!(back.next(), Some(&iv(1.0)));
    assert_eq!(back.next(), Some(&iv(2.0)));
    assert_eq!(back.next(), None);
    assert_eq!(buffer.get(2), None);
}

#[test]
fn push_returns_the_value_that_left() {
    let mut buffer = CircularBuffer::new(3);
    assert_eq!(buffer.push(iv(1.0)), None);
    assert_eq!(buffer.push(iv(2.0)), None);
    assert_eq!(buffer.push(iv(3.0)), None);
    assert!(buffer.is_full());
    assert_eq!(buffer.len(), 3);
    assert_eq!(buffer.push(iv(4.0)), Some(iv(1.0)));
    assert_eq!(buffer.get(0), Some(&iv(4.0)));
    assert_eq!(buffer.index(), 1);
}
