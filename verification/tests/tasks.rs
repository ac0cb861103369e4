use agentira::tasks::{
    completion_counter_label, get_task_name, initial_task_labels, task_label, task_status,
    TaskStatus, TASK_COUNT,
};

#[test]
fn task_names() {
    assert_eq!(get_task_name(0), "Get White Belly");
    assert_eq!(get_task_name(1), "Chop");
    assert_eq!(get_task_name(2), "Fry");
    assert_eq!(get_task_name(3), "Bake");
    assert_eq!(get_task_name(4), "Unknown");
    assert_eq!(get_task_name(usize::MAX), "Unknown");
}

#[test]
fn statuses_follow_the_current_step() {
    assert_eq!(task_status(0, 2), TaskStatus::Done);
    assert_eq!(task_status(1, 2), TaskStatus::Done);
    assert_eq!(task_status(2, 2), TaskStatus::Active);
    assert_eq!(task_status(3, 2), TaskStatus::Pending);
    assert_eq!(task_status(0, 0), TaskStatus::Active);
}

#[test]
fn exactly_one_task_is_active() {
    for step in 0..TASK_COUNT {
        let active = (0..TASK_COUNT)
            .filter(|&i| task_status(i, step) == TaskStatus::Active)
            .count();
        assert_eq!(active, 1);
    }
}

#[test]
fn advancing_finishes_the_current_task() {
    assert_eq!(task_status(1, 1), TaskStatus::Active);
    assert_eq!(task_status(1, 2), TaskStatus::Done);
    assert_eq!(task_status(2, 2), TaskStatus::Active);
}

#[test]
fn labels_carry_a_mark_and_the_name() {
    assert_eq!(task_label(0, 2), "\u{2713} Get White Belly");
    assert_eq!(task_label(1, 2), "\u{2713} Chop");
    assert_eq!(task_label(2, 2), "\u{25c7} Fry");
    assert_eq!(task_label(3, 2), "\u{25c7} Bake");
    assert_eq!(task_label(4, 9), "\u{2713} Unknown");
}

#[test]
fn initial_labels_match_step_zero() {
    let labels = initial_task_labels();
    assert_eq!(
        labels,
        vec![
            "\u{25c7} Get White Belly".to_string(),
            "\u{25c7} Chop".to_string(),
            "\u{25c7} Fry".to_string(),
            "\u{25c7} Bake".to_string(),
        ]
    );
    for (i, label) in labels.iter().enumerate() {
        assert_eq!(*label, task_label(i, 0));
    }
}

#[test]
fn counter_label() {
    assert_eq!(completion_counter_label(0), "COMPLETED: 0");
    assert_eq!(completion_counter_label(7), "COMPLETED: 7");
    assert_eq!(completion_counter_label(10), "COMPLETED: 10");
    assert_eq!(completion_counter_label(1234), "COMPLETED: 1234");
    assert_eq!(completion_counter_label(u32::MAX), "COMPLETED: 4294967295");
}
