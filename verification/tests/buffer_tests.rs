use otel_sdk::AtomicCircularBuffer;

#[derive(Debug, PartialEq, Clone)]
struct ComplexData {
    id: usize,
    name: String,
    data: Vec<u8>,
}

fn single_writer_single_reader<T: PartialEq + Clone + std::fmt::Debug>(
    buffer: &mut AtomicCircularBuffer<T, 3>,
    item1: T,
    item2: T,
    item3: T,
    item4: T,
) {
    assert!(buffer.pop().is_err());

    buffer.push(item1.clone()).unwrap();
    buffer.push(item2.clone()).unwrap();
    buffer.push(item3.clone()).unwrap();
    assert!(buffer.push(item4.clone()).is_err()); // Buffer should be full

    assert_eq!(buffer.pop().unwrap(), item1);
    assert_eq!(buffer.pop().unwrap(), item2);
    assert_eq!(buffer.pop().unwrap(), item3);
    assert!(buffer.pop().is_err()); // Buffer should be empty
}

fn buffer_full<T: Clone + std::fmt::Debug>(
    buffer: &mut AtomicCircularBuffer<T, 3>,
    item1: T,
    item2: T,
    item3: T,
    item4: T,
) {
    assert!(buffer.push(item1.clone()).is_ok());
    assert!(buffer.push(item2.clone()).is_ok());
    assert!(buffer.push(item3.clone()).is_ok());
    assert!(buffer.push(item4.clone()).is_err()); // Buffer should be full after 3 elements
}

fn buffer_empty<T: Clone + std::fmt::Debug>(buffer: &mut AtomicCircularBuffer<T, 3>, item: T) {
    assert!(buffer.pop().is_err()); // Buffer should be empty
    buffer.push(item.clone()).unwrap();
    buffer.pop().unwrap();
    assert!(buffer.pop().is_err()); // Buffer should be empty again
}

#[test]
fn test_single_writer_single_reader_primitive() {
    let mut buffer = AtomicCircularBuffer::<i32, 3>::new();
    single_writer_single_reader(&mut buffer, 1, 2, 3, 4);
}

#[test]
fn test_single_writer_single_reader_complex() {
    let mut buffer = AtomicCircularBuffer::<ComplexData, 3>::new();
    let item1 = ComplexData { id: 1, name: "Item 1".to_string(), data: vec![1, 2, 3] };
    let item2 = ComplexData { id: 2, name: "Item 2".to_string(), data: vec![4, 5, 6] };
    let item3 = ComplexData { id: 3, name: "Item 3".to_string(), data: vec![7, 8, 9] };
    let item4 = ComplexData { id: 4, name: "Item 4".to_string(), data: vec![10, 11, 12] };
    single_writer_single_reader(&mut buffer, item1, item2, item3, item4);
}

#[test]
fn test_buffer_full_primitive() {
    let mut buffer = AtomicCircularBuffer::<i32, 3>::new();
    buffer_full(&mut buffer, 1, 2, 3, 4);
}

#[test]
fn test_buffer_full_complex() {
    let mut buffer = AtomicCircularBuffer::<ComplexData, 3>::new();
    let item1 = ComplexData { id: 1, name: "Item 1".to_string(), data: vec![1, 2, 3] };
    let item2 = ComplexData { id: 2, name: "Item 2".to_string(), data: vec![4, 5, 6] };
    let item3 = ComplexData { id: 3, name: "Item 3".to_string(), data: vec![7, 8, 9] };
    let item4 = ComplexData { id: 4, name: "Item 4".to_string(), data: vec![10, 11, 12] };
    buffer_full(&mut buffer, item1, item2, item3, item4);
}

#[test]
fn test_buffer_empty_primitive() {
    let mut buffer = AtomicCircularBuffer::<i32, 3>::new();
    buffer_empty(&mut buffer, 1);
}

#[test]
fn test_buffer_empty_complex() {
    let mut buffer = AtomicCircularBuffer::<ComplexData, 3>::new();
    let item = ComplexData { id: 1, name: "Item 1".to_string(), data: vec![1, 2, 3] };
    buffer_empty(&mut buffer, item);
}

#[test]
fn test_wraparound_keeps_fifo_order() {
    let mut buffer = AtomicCircularBuffer::<i32, 3>::new();
    buffer.push(1).unwrap();
    buffer.push(2).unwrap();
    assert_eq!(buffer.pop().unwrap(), 1);
    buffer.push(3).unwrap();
    buffer.push(4).unwrap(); // wraps around the ring
    assert!(buffer.push(5).is_err());
    assert_eq!(buffer.pop().unwrap(), 2);
    assert_eq!(buffer.pop().unwrap(), 3);
    assert_eq!(buffer.pop().unwrap(), 4);
    assert!(buffer.pop().is_err());
}
