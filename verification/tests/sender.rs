use std::sync::Mutex;

use brunhilde::Sender;

struct Collect(Mutex<Vec<u128>>);

impl Sender<u128> for Collect {
    fn send(&self, value: u128) {
        self.0.lock().unwrap().push(value);
    }
}

#[test]
fn a_boxed_sender_hands_values_on() {
    let collect = Collect(Mutex::new(Vec::new()));
    {
        let sender: &dyn Sender<u128> = &collect;
        sender.send(3);
        sender.send(4);
    }
    assert_eq!(*collect.0.lock().unwrap(), vec![3, 4]);
}
