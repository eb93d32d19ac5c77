use structures::queue::Queue;
use structures::queue::QueueError;

/// A one-slot queue, the smallest implementor the interface admits.
struct OneSlot {
    slot: Option<i32>,
}

impl Queue<i32> for OneSlot {
    fn add(&mut self, element: i32) -> Result<(), QueueError> {
        if self.slot.is_some() {
            Err(QueueError::FullQueue)
        } else {
            self.slot = Some(element);
            Ok(())
        }
    }

    fn remove(&mut self) -> Result<i32, QueueError> {
        match self.slot.take() {
            Some(e) => Ok(e),
            None => Err(QueueError::EmptyQueue),
        }
    }

    fn peek(&self) -> Result<Option<&i32>, QueueError> {
        Ok(self.slot.as_ref())
    }
}

#[test]
fn queue_interface_round_trip() {
    let mut q = OneSlot { slot: None };
    assert_eq!(q.remove(), Err(QueueError::EmptyQueue));
    assert_eq!(q.add(5), Ok(()));
    assert_eq!(q.peek(), Ok(Some(&5)));
    assert_eq!(q.add(6), Err(QueueError::FullQueue));
    assert_eq!(q.remove(), Ok(5));
    assert_eq!(q.peek(), Ok(None));
}
