//! Notification fan-out: the handler registry and the dispatch step.
//!
//! Handlers are kept in registration order and every notification is offered
//! to each of them in that order; a handler that fails does not stop
//! delivery to the handlers after it. Dispatch performs no filtering by
//! method — a handler not interested in a method must ignore it.

use vstd::prelude::*;
use crate::error::{McpError, McpResult};
use crate::types::JsonRpcNotification;
use crate::validation::str_eq;

verus! {

/// A consumer of unsolicited server-to-client notifications. Implementors
/// receive every notification and must ignore methods they do not care
/// about; a failure is reported, not propagated.
pub trait NotificationHandler {
    /// Consume one notification.
    fn handle_notification(&self, notification: &JsonRpcNotification) -> McpResult<()>;
}

/// Offer one notification to every registered handler, in registration
/// order. Every handler is attempted exactly once: a failure is recorded
/// and delivery continues with the next handler. The outcome list parallels
/// the registry: entry `i` says whether handler `i` accepted the
/// notification.
pub fn dispatch_notification(
    handlers: &Vec<Box<dyn NotificationHandler>>,
    notification: &JsonRpcNotification,
) -> (outcomes: Vec<bool>)
    ensures
        outcomes@.len() == handlers@.len(),
{
    let mut outcomes: Vec<bool> = Vec::new();
    let mut i: usize = 0;
    while i < handlers.len()
        invariant
            i <= handlers@.len(),
            outcomes@.len() == i,
        decreases handlers@.len() - i,
    {
        let ok = match handlers[i].handle_notification(notification) {
            Ok(_) => true,
            Err(_) => false,
        };
        outcomes.push(ok);
        i = i + 1;
    }
    outcomes
}

/// A handler that merely acknowledges every notification, for hosts that
/// only want the traffic logged elsewhere.
#[derive(Debug, Clone, Copy, PartialEq, Eq)]
pub struct LoggingNotificationHandler;

impl NotificationHandler for LoggingNotificationHandler {
    /// Accept every notification.
    fn handle_notification(&self, notification: &JsonRpcNotification) -> (r: McpResult<()>)
        ensures
            r is Ok,
    {
        Ok(())
    }
}

/// A handler that runs a callback on every resource update notification.
pub struct ResourceUpdateHandler<F: Fn(&JsonRpcNotification) -> ()> {
    /// Runs on each resource update notification.
    callback: F,
}

impl<F: Fn(&JsonRpcNotification) -> ()> ResourceUpdateHandler<F> {
    /// The callback must accept any notification.
    #[verifier::type_invariant]
    spec fn wf(self) -> bool {
        forall|n: &JsonRpcNotification| call_requires(self.callback, (n,))
    }

    /// A handler around the given callback, which must accept any
    /// notification.
    pub fn new(callback: F) -> (r: Self)
        requires
            forall|n: &JsonRpcNotification| call_requires(callback, (n,)),
    {
        ResourceUpdateHandler { callback }
    }
}

impl<F: Fn(&JsonRpcNotification) -> ()> NotificationHandler for ResourceUpdateHandler<F> {
    /// Run the callback when the notification is a resource update; ignore
    /// everything else.
    fn handle_notification(&self, notification: &JsonRpcNotification) -> (r: McpResult<()>)
        ensures
            r is Ok,
    {
        proof {
            use_type_invariant(self);
        }
        if str_eq(notification.method.as_str(), crate::methods::RESOURCES_UPDATED) {
            (self.callback)(notification);
        }
        Ok(())
    }
}

/// A handler that runs a callback whenever the server announces a changed
/// tool catalog.
pub struct ToolListChangedHandler<F: Fn() -> ()> {
    /// Runs on each tool list change notification.
    callback: F,
}

impl<F: Fn() -> ()> ToolListChangedHandler<F> {
    /// The callback must be callable unconditionally.
    #[verifier::type_invariant]
    spec fn wf(self) -> bool {
        call_requires(self.callback, ())
    }

    /// A handler around the given callback, which must be callable
    /// unconditionally.
    pub fn new(callback: F) -> (r: Self)
        requires
            call_requires(callback, ()),
    {
        ToolListChangedHandler { callback }
    }
}

impl<F: Fn() -> ()> NotificationHandler for ToolListChangedHandler<F> {
    /// Run the callback when the notification announces a changed tool
    /// catalog; ignore everything else.
    fn handle_notification(&self, notification: &JsonRpcNotification) -> (r: McpResult<()>)
        ensures
            r is Ok,
    {
        proof {
            use_type_invariant(self);
        }
        if str_eq(notification.method.as_str(), crate::methods::TOOLS_LIST_CHANGED) {
            (self.callback)();
        }
        Ok(())
    }
}

/// The queue of unsolicited notifications of one connection, drained
/// independently of request/response traffic. First in, first out; polling
/// an empty queue says so without blocking, and a closed empty queue is an
/// error, which is how a drain loop learns that the connection is gone.
#[derive(Debug)]
pub struct NotificationQueue {
    /// Queued notifications, oldest first.
    pub items: Vec<JsonRpcNotification>,
    /// Whether the producing side is gone.
    pub closed: bool,
}

impl NotificationQueue {
    /// An empty, open queue.
    pub fn new() -> (r: Self)
        ensures
            r.items@.len() == 0,
            !r.closed,
    {
        NotificationQueue { items: Vec::new(), closed: false }
    }

    /// How many notifications are queued.
    pub fn len(&self) -> (n: usize)
        ensures
            n == self.items@.len(),
    {
        self.items.len()
    }

    /// Append a notification; says whether the queue accepted it. A closed
    /// queue accepts nothing.
    pub fn enqueue(&mut self, notification: JsonRpcNotification) -> (accepted: bool)
        ensures
            accepted == !old(self).closed,
            accepted ==> final(self).items@ == old(self).items@.push(notification),
            !accepted ==> final(self).items@ == old(self).items@,
            final(self).closed == old(self).closed,
    {
        if self.closed {
            false
        } else {
            self.items.push(notification);
            true
        }
    }

    /// Take the oldest notification without blocking. An empty open queue
    /// yields nothing — which is distinct from a closed empty queue, an
    /// error ending the drain loop.
    pub fn poll(&mut self) -> (r: McpResult<Option<JsonRpcNotification>>)
        ensures
            final(self).closed == old(self).closed,
            old(self).items@.len() > 0 ==> (r matches Ok(Some(n)) && n == old(self).items@[0]
                && final(self).items@ == old(self).items@.subrange(
                1,
                old(self).items@.len() as int,
            )),
            old(self).items@.len() == 0 && !old(self).closed ==> (r matches Ok(None) && final(self).items@ == old(self).items@),
            old(self).items@.len() == 0 && old(self).closed ==> (r matches Err(
                McpError::TransportIo(_),
            ) && final(self).items@ == old(self).items@),
    {
        if self.items.len() == 0 {
            if self.closed {
                Err(McpError::TransportIo("notification channel closed".to_owned()))
            } else {
                Ok(None)
            }
        } else {
            let n = self.items.remove(0);
            Ok(Some(n))
        }
    }

    /// Mark the producing side as gone: what is already queued can still be
    /// drained, after which polling reports the closure.
    pub fn close(&mut self)
        ensures
            final(self).closed,
            final(self).items@ == old(self).items@,
    {
        self.closed = true;
    }
}

} // verus!
