use webvy::executor::plan_order;
use webvy::phase::WorkUnitEntry;

fn entries(afters: Vec<Vec<usize>>) -> Vec<WorkUnitEntry<u32>> {
    afters
        .into_iter()
        .enumerate()
        .map(|(i, after)| WorkUnitEntry { unit: i as u32, after })
        .collect()
}

fn position(order: &[usize], unit: usize) -> usize {
    order.iter().position(|&u| u == unit).unwrap()
}

#[test]
fn independent_units_are_all_scheduled_once() {
    let units = entries(vec![vec![], vec![], vec![]]);
    let mut order = plan_order(&units).unwrap();
    order.sort();
    assert_eq!(order, vec![0, 1, 2]);
}

#[test]
fn declared_predecessors_come_first() {
    // 2 runs after 0 and 1; 1 runs after 0.
    let units = entries(vec![vec![], vec![0], vec![0, 1]]);
    let order = plan_order(&units).unwrap();
    assert!(position(&order, 0) < position(&order, 1));
    assert!(position(&order, 1) < position(&order, 2));
}

#[test]
fn diamond_dependencies_form_a_plan() {
    // 1 and 2 both run after 0; 3 runs after both.
    let units = entries(vec![vec![], vec![0], vec![0], vec![1, 2]]);
    let order = plan_order(&units).unwrap();
    assert_eq!(position(&order, 0), 0);
    assert_eq!(position(&order, 3), 3);
}

#[test]
fn a_cycle_has_no_plan() {
    let units = entries(vec![vec![1], vec![0]]);
    assert!(plan_order(&units).is_none());
}

#[test]
fn a_dependency_on_nothing_registered_has_no_plan() {
    let units = entries(vec![vec![5]]);
    assert!(plan_order(&units).is_none());
}

#[test]
fn a_unit_depending_on_itself_has_no_plan() {
    let units = entries(vec![vec![], vec![1]]);
    assert!(plan_order(&units).is_none());
}
