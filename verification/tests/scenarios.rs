use todo_list::edit::split_edit;
use todo_list::{run, Command, Status, Stored, Todo, TodoList};

#[test]
fn one_task_from_empty_storage_to_empty_list() {
    let mut list = TodoList::load(Stored::Absent);

    let outcome = run(&mut list, Command::Add("buy milk".to_string()));
    assert_eq!(outcome.status, Status::Saved);
    assert_eq!(outcome.lines, vec!["Added: buy milk".to_string()]);

    let outcome = run(&mut list, Command::List);
    assert_eq!(outcome.status, Status::Listed);
    assert_eq!(outcome.lines, vec!["1: buy milk [ ]".to_string()]);

    let outcome = run(&mut list, Command::Done("1".to_string()));
    assert_eq!(outcome.status, Status::Saved);
    assert_eq!(outcome.lines, vec!["Marked task 1 as done".to_string()]);

    let outcome = run(&mut list, Command::List);
    assert_eq!(outcome.lines, vec!["1: buy milk [x]".to_string()]);

    let outcome = run(&mut list, Command::Edit("1,buy oat milk".to_string()));
    assert_eq!(outcome.status, Status::Saved);
    assert_eq!(outcome.lines, vec!["Edited task 1 to 'buy oat milk'".to_string()]);
    assert_eq!(list.tasks(), &vec![Todo { task: "buy oat milk".to_string(), done: true }]);

    let outcome = run(&mut list, Command::Remove("1".to_string()));
    assert_eq!(outcome.status, Status::Saved);
    assert_eq!(outcome.lines, vec!["Removed task 1".to_string()]);

    let outcome = run(&mut list, Command::List);
    assert_eq!(outcome.status, Status::Listed);
    assert!(outcome.lines.is_empty());
    assert_eq!(list.len(), 0);
}

#[test]
fn edit_of_three_items_splits_at_the_first_comma() {
    let mut list = TodoList::load(Stored::Tasks(vec![
        Todo::new("buy milk".to_string()),
        Todo::new("call mom".to_string()),
        Todo::new("pay rent".to_string()),
    ]));
    assert_eq!(
        split_edit("2,call mom, please"),
        Ok(("2".to_string(), "call mom, please".to_string()))
    );
    let outcome = run(&mut list, Command::Edit("2,call mom, please".to_string()));
    assert_eq!(outcome.status, Status::Saved);
    assert_eq!(list.len(), 3);
    assert_eq!(list.tasks()[0].task, "buy milk");
    assert_eq!(list.tasks()[1].task, "call mom, please");
    assert_eq!(list.tasks()[2].task, "pay rent");
}
