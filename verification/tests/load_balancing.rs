use technical_analysis::load_balancing::{BaseLoadBalancing, LoadBalancingStrategy};

fn names(list: &[&str]) -> Vec<String> {
    list.iter().map(|s| s.to_string()).collect()
}

#[test]
fn new_listeners_are_ready() {
    let listeners = names(&["a", "b"]);
    let lb = BaseLoadBalancing::new(&listeners);
    assert!(lb.is_ready(&listeners[0]));
    assert!(lb.is_ready(&listeners[1]));
    assert_eq!(lb.get_ready_listener(&listeners), Some(&listeners[0]));
}

#[test]
fn busy_listeners_are_passed_over() {
    let listeners = names(&["a", "b", "c"]);
    let mut lb = BaseLoadBalancing::new(&listeners);
    lb.mark_busy("a");
    assert!(!lb.is_ready(&listeners[0]));
    assert_eq!(lb.get_ready_listener(&listeners), Some(&listeners[1]));
    lb.mark_busy("b");
    lb.mark_busy("c");
    assert_eq!(lb.get_ready_listener(&listeners), None);
    lb.mark_ready("b");
    assert_eq!(lb.get_ready_listener(&listeners), Some(&listeners[1]));
}

#[test]
fn unknown_listeners_are_ready_and_cannot_be_marked() {
    let listeners = names(&["a"]);
    let mut lb = BaseLoadBalancing::new(&listeners);
    let stranger = "z".to_string();
    assert!(lb.is_ready(&stranger));
    lb.mark_busy("z");
    assert!(lb.is_ready(&stranger));
    let asked = names(&["z", "a"]);
    assert_eq!(lb.get_ready_listener(&asked), Some(&asked[0]));
    assert_eq!(lb.get_ready_listener(&[]), None);
}

struct First {
    busy: Vec<String>,
}

impl LoadBalancingStrategy for First {
    fn select_listener(&mut self, listeners: &[String]) -> String {
        listeners[0].clone()
    }

    fn update_state(&mut self, listener: &str, busy: bool) {
        if busy {
            self.busy.push(listener.to_string());
        }
    }
}

#[test]
fn a_strategy_can_be_written() {
    let mut s = First { busy: Vec::new() };
    let listeners = names(&["a", "b"]);
    assert_eq!(s.select_listener(&listeners), "a");
    s.update_state("a", true);
    assert_eq!(s.busy, names(&["a"]));
}
