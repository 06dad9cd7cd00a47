use esercizi::double_link::{DoublyPointedList, Node};

#[derive(Debug, Copy, Clone, PartialEq)]
struct Point {
    x: i32,
    y: i32,
}

#[test]
fn test_push_back_pop_front() {
    let mut list = DoublyPointedList::new();
    list.push_back(Point { x: 1, y: 2 });
    list.push_back(Point { x: 3, y: 4 });

    assert_eq!(list.pop_front(), Some(Point { x: 1, y: 2 }));
    assert_eq!(list.pop_front(), Some(Point { x: 3, y: 4 }));
    assert_eq!(list.pop_front(), None);
    assert_eq!(list.is_empty(), true);
}

#[test]
fn test_push_front_pop_back() {
    let mut list = DoublyPointedList::new();
    list.push_front(Point { x: 1, y: 2 });
    list.push_front(Point { x: 3, y: 4 });

    assert_eq!(list.pop_back(), Some(Point { x: 1, y: 2 }));
    assert_eq!(list.pop_back(), Some(Point { x: 3, y: 4 }));
    assert_eq!(list.pop_back(), None);
    assert_eq!(list.is_empty(), true);
}

#[test]
fn test_double_links_test_get() {
    let mut list = DoublyPointedList::new();
    list.push_back(Point { x: 1, y: 2 });
    list.push_back(Point { x: 3, y: 4 });
    list.push_back(Point { x: 5, y: 6 });

    assert_eq!(list.get(0), Some(Point { x: 1, y: 2 }));
    assert_eq!(list.get(-1), Some(Point { x: 5, y: 6 }));
    assert_eq!(list.get(1), Some(Point { x: 3, y: 4 }));
    assert_eq!(list.get(-2), Some(Point { x: 3, y: 4 }));
    assert_eq!(list.get(2), Some(Point { x: 5, y: 6 }));
    assert_eq!(list.get(-3), Some(Point { x: 1, y: 2 }));
    assert_eq!(list.get(3), None);
    assert_eq!(list.get(-4), None);
}

#[test]
fn lista_vuota() {
    let mut list: DoublyPointedList<i32> = DoublyPointedList::new();
    assert!(list.is_empty());
    assert_eq!(list.len(), 0);
    assert_eq!(list.get(0), None);
    assert_eq!(list.get(-1), None);
    assert_eq!(list.pop_back(), None);
    assert_eq!(list.pop_front(), None);
    assert_eq!(list.len(), 0);
}

#[test]
fn lista_tiene_il_conto() {
    let mut list = DoublyPointedList::new();
    list.push_back(1);
    list.push_front(0);
    list.push_back(2);
    assert_eq!(list.len(), 3);
    assert!(!list.is_empty());
    assert_eq!(list.get(0), Some(0));
    assert_eq!(list.get(1), Some(1));
    assert_eq!(list.get(2), Some(2));
    assert_eq!(list.pop_back(), Some(2));
    assert_eq!(list.len(), 2);
    assert_eq!(list.pop_front(), Some(0));
    assert_eq!(list.len(), 1);
    assert_eq!(list.get(0), Some(1));
    assert_eq!(list.get(-1), Some(1));
}

#[test]
fn get_non_toglie_nulla() {
    let mut list = DoublyPointedList::new();
    list.push_back(7);
    list.push_back(8);
    assert_eq!(list.get(1), Some(8));
    assert_eq!(list.get(1), Some(8));
    assert_eq!(list.len(), 2);
}

#[test]
fn get_con_indici_estremi() {
    let mut list = DoublyPointedList::new();
    list.push_back(7);
    assert_eq!(list.get(i32::MAX), None);
    assert_eq!(list.get(i32::MIN + 1), None);
}

#[test]
fn nodo_tiene_il_suo_elemento() {
    let nodo = Node::new(42);
    assert_eq!(nodo.get_item(), 42);
}

#[test]
fn lista_di_default_e_vuota() {
    let mut list: DoublyPointedList<u8> = Default::default();
    assert!(list.is_empty());
    assert_eq!(list.get(0), None);
    list.push_front(3);
    assert_eq!(list.len(), 1);
    let nodo: Node<u8> = Default::default();
    assert_eq!(nodo.get_item(), 0);
}
