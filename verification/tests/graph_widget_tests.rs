use atmoweb_tui::widgets::graph_widget::{GraphWidget, HISTORY_LEN};

#[test]
fn history_keeps_the_newest_sixty() {
    let mut graph = GraphWidget::new("Live", "°C", 0, 300_000);
    assert_eq!(graph.x_bounds(), [0, 1]);
    for i in 0..100i64 {
        graph.push_sample(i, 2 * i);
        assert!(graph.current_history.len() <= HISTORY_LEN);
    }
    assert_eq!(graph.current_history.len(), 60);
    assert_eq!(graph.target_history.len(), 60);
    assert_eq!(graph.current_history.front(), Some(&(40, 40)));
    assert_eq!(graph.current_history.back(), Some(&(99, 99)));
    assert_eq!(graph.target_history.back(), Some(&(99, 198)));
    assert_eq!(graph.next_x, 100);
    assert_eq!(graph.x_bounds(), [40, 100]);
}

#[test]
fn short_history_keeps_everything() {
    let mut graph = GraphWidget::new("Live", "°C", 0, 300_000);
    graph.push_sample(1, 2);
    graph.push_sample(3, 4);
    let current: Vec<(u64, i64)> = graph.current_history.iter().copied().collect();
    assert_eq!(current, vec![(0, 1), (1, 3)]);
    assert_eq!(graph.x_bounds(), [0, 2]);
}
