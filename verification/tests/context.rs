use mctk::context::{get_static_context_handler, Context, ContextHandler, Listener, Model};

struct Weather {
    temperature: Context<i32>,
    city: Context<i32>,
}

impl Model for Weather {
    fn register_context_handler(&self, _context_handler: &mut ContextHandler) {}
}

#[test]
fn a_context_holds_its_value() {
    let mut c = Context::new(5);
    assert_eq!(*c.get(), 5);
    assert!(c.set(6).is_empty());
    assert_eq!(*c.get(), 6);
    let text = Context::new("a".to_string());
    assert_eq!(text.get(), "a");
}

#[test]
fn set_names_the_listeners_in_the_order_of_registration() {
    let mut c = Context::new(0);
    c.register_on_change(7);
    c.register_on_change(3);
    assert_eq!(c.set(1), vec![Listener::Callback(7), Listener::Callback(3)]);
    let handler = ContextHandler::with_id(9);
    handler.register_context(&mut c);
    c.register_on_change(7);
    assert_eq!(
        c.set(2),
        vec![
            Listener::Callback(7),
            Listener::Callback(3),
            Listener::Handler(9),
            Listener::Callback(7)
        ]
    );
    assert_eq!(*c.get(), 2);
}

#[test]
fn a_handler_collects_callbacks() {
    let mut h = ContextHandler::new();
    assert!(h.notified().is_empty());
    h.register_on_change(1);
    h.register_on_change(2);
    h.register_on_change(1);
    assert_eq!(h.notified(), vec![1, 2, 1]);
    let s = get_static_context_handler();
    assert!(s.notified().is_empty());
}

#[test]
fn a_handler_ties_itself_to_every_context() {
    let h = ContextHandler::with_id(4);
    let mut contexts = vec![Context::new(1), Context::new(2), Context::new(3)];
    contexts[1].register_on_change(8);
    h.register_contexts(&mut contexts);
    assert_eq!(contexts.len(), 3);
    assert_eq!(contexts[0].set(10), vec![Listener::Handler(4)]);
    assert_eq!(contexts[1].set(20), vec![Listener::Callback(8), Listener::Handler(4)]);
    assert_eq!(contexts[2].set(30), vec![Listener::Handler(4)]);
    assert_eq!(*contexts[1].get(), 20);
    let mut none: Vec<Context<u8>> = Vec::new();
    h.register_contexts(&mut none);
    assert!(none.is_empty());
}

#[test]
fn a_model_ties_its_contexts_to_a_handler() {
    let mut handler = ContextHandler::with_id(2);
    let mut weather = Weather { temperature: Context::new(20), city: Context::new(1) };
    weather.register_context_handler(&mut handler);
    handler.register_context(&mut weather.temperature);
    assert_eq!(weather.temperature.set(21), vec![Listener::Handler(2)]);
    assert!(weather.city.set(2).is_empty());
}
