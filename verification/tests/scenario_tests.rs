use chat_relay::bus::{Bus, Envelope, Recv, Subscription};
use chat_relay::handler::Handler;
use chat_relay::registry::Registry;

fn publish_outcome(bus: &mut Bus, publish: Option<Envelope>) {
    if let Some(env) = publish {
        bus.publish(env);
    }
}

fn drain_deliveries(bus: &Bus, sub: &mut Subscription, h: &Handler) -> Vec<String> {
    let mut delivered = Vec::new();
    loop {
        match bus.try_recv(sub) {
            Recv::Message(env) => {
                if let Some(text) = h.envelope(&env) {
                    delivered.push(text);
                }
            }
            Recv::Lagged(_) => {}
            Recv::Empty => break,
        }
    }
    delivered
}

#[test]
fn two_clients_chat_list_and_quit() {
    let mut bus = Bus::new(100);
    let mut reg = Registry::new();

    // Client A connects and registers as Alice.
    let mut a = Handler::new(1);
    let mut sub_a = bus.subscribe();
    let out = a.name_line("Alice\n", &mut reg);
    publish_outcome(&mut bus, out.publish);

    // Client B connects and sends an empty name: Person2 is assigned.
    let mut b = Handler::new(2);
    let mut sub_b = bus.subscribe();
    let out = b.name_line("\n", &mut reg);
    publish_outcome(&mut bus, out.publish);
    assert_eq!(reg.lookup(2), Some(String::from("Person2")));

    // A sees B's join; B subscribed after A's join and never sees it,
    // and neither sees its own.
    assert_eq!(
        drain_deliveries(&bus, &mut sub_a, &a),
        vec![String::from("[Server]: Person2 joined the chat\n")]
    );
    assert_eq!(drain_deliveries(&bus, &mut sub_b, &b), Vec::<String>::new());

    // A says hello: B receives it, A receives nothing extra.
    let out = a.text_line("hello\n", &mut reg);
    assert!(out.reply.is_none());
    publish_outcome(&mut bus, out.publish);
    assert_eq!(
        drain_deliveries(&bus, &mut sub_b, &b),
        vec![String::from("[Alice]: hello\n")]
    );
    assert_eq!(drain_deliveries(&bus, &mut sub_a, &a), Vec::<String>::new());

    // B asks for the listing: B alone receives it, nothing is broadcast.
    let out = b.text_line("/list\n", &mut reg);
    assert_eq!(
        out.reply.as_deref(),
        Some("Usu\u{e1}rios online:\n- Alice\n- Person2\n")
    );
    assert!(out.publish.is_none());
    assert_eq!(drain_deliveries(&bus, &mut sub_a, &a), Vec::<String>::new());

    // A quits: A gets the farewell, B gets the departure notice, A closes.
    let out = a.text_line("/quit\n", &mut reg);
    assert_eq!(out.reply.as_deref(), Some("Leaving chat...\n"));
    assert!(out.disconnect);
    publish_outcome(&mut bus, out.publish);
    assert_eq!(
        drain_deliveries(&bus, &mut sub_b, &b),
        vec![String::from("[Server]: Alice left the chat\n")]
    );
    assert_eq!(reg.lookup(1), None);
    assert_eq!(reg.lookup(2), Some(String::from("Person2")));
}
