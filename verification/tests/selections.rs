use todo_api::indexes::{ids_from_positions, parse_indexes};
use todo_api::structs::Task;

fn task(id: i32) -> Task {
    Task::new(id, format!("task {}", id), false, String::new(), String::new())
}

#[test]
fn indexes_of_a_list() {
    assert_eq!(parse_indexes("1,2,3"), vec![1, 2, 3]);
    assert_eq!(parse_indexes("42"), vec![42]);
    assert_eq!(parse_indexes("-3,+4"), vec![-3, 4]);
}

#[test]
fn indexes_skip_unreadable_entries() {
    assert_eq!(parse_indexes("1,,x,4"), vec![1, 4]);
    assert_eq!(parse_indexes(""), Vec::<i32>::new());
    assert_eq!(parse_indexes(","), Vec::<i32>::new());
    assert_eq!(parse_indexes("a,b"), Vec::<i32>::new());
    assert_eq!(parse_indexes("5,99999999999,6"), vec![5, 6]);
}

#[test]
fn indexes_agree_with_split_and_parse() {
    for text in ["1,2", ",1,", "7,,8", "x", "-1,0,1", "1 ,2"] {
        let expected: Vec<i32> = text.split(',').filter_map(|p| p.parse().ok()).collect();
        assert_eq!(parse_indexes(text), expected, "{:?}", text);
    }
}

#[test]
fn indexes_read_back_joined_numbers() {
    let numbers = vec![3, -12, 0, 2147483647, -2147483648];
    let text = numbers.iter().map(|n| n.to_string()).collect::<Vec<_>>().join(",");
    assert_eq!(parse_indexes(&text), numbers);
}

#[test]
fn positions_pick_task_ids() {
    let tasks = vec![task(10), task(20), task(30)];
    assert_eq!(ids_from_positions(&vec![1, 3], &tasks), vec![10, 30]);
    assert_eq!(ids_from_positions(&vec![3, 1, 3], &tasks), vec![30, 10, 30]);
}

#[test]
fn positions_outside_the_list_pick_nothing() {
    let tasks = vec![task(10), task(20)];
    assert_eq!(ids_from_positions(&vec![0, 3, -1, 2], &tasks), vec![20]);
    assert_eq!(ids_from_positions(&vec![1], &vec![]), Vec::<i32>::new());
}
