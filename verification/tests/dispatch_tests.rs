use std::cell::RefCell;
use std::rc::Rc;

use mcp_protocol_sdk::dispatch::{
    dispatch_notification, LoggingNotificationHandler, NotificationHandler, NotificationQueue,
    ResourceUpdateHandler, ToolListChangedHandler,
};
use mcp_protocol_sdk::error::{McpError, McpResult};
use mcp_protocol_sdk::router::tools_list_changed_notification;
use mcp_protocol_sdk::types::JsonRpcNotification;

struct RecordingHandler {
    id: i32,
    fail: bool,
    log: Rc<RefCell<Vec<i32>>>,
}

impl NotificationHandler for RecordingHandler {
    fn handle_notification(&self, _notification: &JsonRpcNotification) -> McpResult<()> {
        self.log.borrow_mut().push(self.id);
        if self.fail {
            Err(McpError::Internal("handler failed".to_string()))
        } else {
            Ok(())
        }
    }
}

#[test]
fn handlers_run_in_registration_order_despite_failures() {
    // every notification reaches every handler in registration order, and a
    // failing handler does not stop the handlers after it
    let log: Rc<RefCell<Vec<i32>>> = Rc::new(RefCell::new(Vec::new()));
    let handlers: Vec<Box<dyn NotificationHandler>> = vec![
        Box::new(RecordingHandler { id: 1, fail: false, log: log.clone() }),
        Box::new(RecordingHandler { id: 2, fail: true, log: log.clone() }),
        Box::new(RecordingHandler { id: 3, fail: false, log: log.clone() }),
    ];

    let note = JsonRpcNotification::new("notifications/progress".to_string(), None);
    let outcomes = dispatch_notification(&handlers, &note);

    assert_eq!(outcomes, vec![true, false, true]);
    assert_eq!(*log.borrow(), vec![1, 2, 3]);

    // a second notification is again offered to all three
    let outcomes = dispatch_notification(&handlers, &note);
    assert_eq!(outcomes.len(), 3);
    assert_eq!(*log.borrow(), vec![1, 2, 3, 1, 2, 3]);
}

#[test]
fn logging_handler_accepts_everything() {
    let note = JsonRpcNotification::new("anything".to_string(), None);
    assert!(LoggingNotificationHandler.handle_notification(&note).is_ok());
}

#[test]
fn tool_list_changed_handler_filters_by_method() {
    let hits: Rc<RefCell<i32>> = Rc::new(RefCell::new(0));
    let hits_in = hits.clone();
    let handler = ToolListChangedHandler::new(move || {
        *hits_in.borrow_mut() += 1;
    });

    let unrelated = JsonRpcNotification::new("notifications/progress".to_string(), None);
    handler.handle_notification(&unrelated).unwrap();
    assert_eq!(*hits.borrow(), 0);

    let changed = tools_list_changed_notification();
    handler.handle_notification(&changed).unwrap();
    assert_eq!(*hits.borrow(), 1);
}

#[test]
fn resource_update_handler_filters_by_method() {
    let seen: Rc<RefCell<Vec<String>>> = Rc::new(RefCell::new(Vec::new()));
    let seen_in = seen.clone();
    let handler = ResourceUpdateHandler::new(move |n: &JsonRpcNotification| {
        seen_in.borrow_mut().push(n.method.clone());
    });

    let unrelated = JsonRpcNotification::new("ping".to_string(), None);
    handler.handle_notification(&unrelated).unwrap();
    assert_eq!(seen.borrow().len(), 0);

    let updated =
        JsonRpcNotification::new("notifications/resources/updated".to_string(), None);
    handler.handle_notification(&updated).unwrap();
    assert_eq!(*seen.borrow(), vec!["notifications/resources/updated".to_string()]);
}

#[test]
fn notification_queue_is_fifo() {
    let mut queue = NotificationQueue::new();
    assert!(queue.enqueue(JsonRpcNotification::new("first".to_string(), None)));
    assert!(queue.enqueue(JsonRpcNotification::new("second".to_string(), None)));
    assert_eq!(queue.len(), 2);

    assert_eq!(queue.poll().unwrap().unwrap().method, "first");
    assert_eq!(queue.poll().unwrap().unwrap().method, "second");
    // an empty open queue reports absence, not an error
    assert!(queue.poll().unwrap().is_none());
}

#[test]
fn closed_queue_drains_then_errors() {
    let mut queue = NotificationQueue::new();
    queue.enqueue(JsonRpcNotification::new("pending".to_string(), None));
    queue.close();

    // what was queued before the close can still be drained
    assert_eq!(queue.poll().unwrap().unwrap().method, "pending");
    // a closed empty queue is an error, distinct from mere absence
    assert!(matches!(queue.poll(), Err(McpError::TransportIo(_))));
    // and a closed queue accepts nothing new
    assert!(!queue.enqueue(JsonRpcNotification::new("late".to_string(), None)));
}
