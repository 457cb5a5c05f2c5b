use event_sourcing::Command;
use event_sourcing::CommandHandler;
use event_sourcing::Event;
use event_sourcing::RestockCommandHandler;
use event_sourcing::RestockOrder;
use event_sourcing::RestockOrdered;
use event_sourcing::RestockerState;

/// Run one command against a handler seeded with `history` and return what it
/// emitted.
fn when(history: Vec<RestockOrdered>, command: RestockOrder) -> Vec<RestockOrdered> {
    let mut handler = RestockCommandHandler::new(history);
    handler.handle(&command)
}

#[test]
fn test_emits_restock_ordered_when_asked_to_restock() {
    // GIVEN: No previous restock history
    // WHEN: We request a restock of 100 units
    let result = when(vec![], RestockOrder::new(100));

    // THEN: A RestockOrdered event should be published
    assert_eq!(result.len(), 1);
    assert_eq!(result[0].event_type(), "restock_ordered");
    assert_eq!(result[0].quantity, 100);
}

#[test]
fn test_emits_no_restock_ordered_when_enough_stock_is_available() {
    // GIVEN: Stock has been restocked twice before (150 units total)
    // WHEN: We request another restock of 50 units
    let result = when(
        vec![RestockOrdered::new(100), RestockOrdered::new(50)],
        RestockOrder::new(50),
    );

    // THEN: No events should be published (we already have enough stock)
    assert_eq!(result.len(), 0);
}

#[test]
fn test_boundary_ninety_nine_accepts() {
    let result = when(vec![RestockOrdered::new(99)], RestockOrder::new(1));
    assert_eq!(result.len(), 1);
    assert_eq!(result[0].quantity, 1);
    assert_eq!(result[0].event_type(), "restock_ordered");
}

#[test]
fn test_boundary_exactly_hundred_suppresses() {
    let result = when(vec![RestockOrdered::new(100)], RestockOrder::new(1));
    assert_eq!(result.len(), 0);
}

#[test]
fn test_negative_history_accepts() {
    let result = when(vec![RestockOrdered::new(-50)], RestockOrder::new(200));
    assert_eq!(result.len(), 1);
    assert_eq!(result[0].quantity, 200);
}

#[test]
fn test_projection_of_empty_history_is_zero() {
    let state = RestockerState::new(&[]);
    assert_eq!(state.quantity, 0);
}

#[test]
fn test_projection_sums_quantities() {
    let history = [
        RestockOrdered::new(30),
        RestockOrdered::new(20),
        RestockOrdered::new(-10),
    ];
    let state = RestockerState::new(&history);
    assert_eq!(state.quantity, 40);
}

#[test]
fn test_projection_is_order_independent() {
    let quantities: [[i32; 3]; 6] = [
        [10, 20, 70],
        [10, 70, 20],
        [20, 10, 70],
        [20, 70, 10],
        [70, 10, 20],
        [70, 20, 10],
    ];
    for permutation in quantities {
        let history: Vec<RestockOrdered> =
            permutation.iter().map(|q| RestockOrdered::new(*q)).collect();
        let state = RestockerState::new(&history);
        assert_eq!(state.quantity, 100);
    }
}

#[test]
fn test_published_records_last_emission() {
    let mut handler = RestockCommandHandler::new(vec![RestockOrdered::new(40)]);
    assert_eq!(handler.published().len(), 0);

    let result = handler.handle(&RestockOrder::new(25));
    assert_eq!(result.len(), 1);
    assert_eq!(handler.published().len(), 1);
    assert_eq!(handler.published()[0].quantity, 25);
    assert_eq!(handler.published()[0].recorded_at(), result[0].recorded_at());
}

#[test]
fn test_event_reports_constant_type_and_its_timestamp() {
    let event = RestockOrdered::new(5);
    assert_eq!(event.event_type(), "restock_ordered");
    assert_eq!(event.recorded_at(), event.recorded_at);
    assert_eq!(event.quantity, 5);
}

#[test]
fn test_command_carries_quantity() {
    let command = RestockOrder::new(7);
    assert_eq!(command.quantity, 7);
}

/// Accepts any command through the marker trait bound.
fn quantity_of<C: Command>(_command: &C, quantity: i32) -> i32 {
    quantity
}

#[test]
fn test_command_is_a_marker() {
    let command = RestockOrder::new(3);
    assert_eq!(quantity_of(&command, command.quantity), 3);
}
