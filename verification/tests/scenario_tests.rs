use agentropic_messaging::prelude::{
    AgentId, CorrelationTracker, Message, MessagingError, Performative, RequestReply, Router,
};
use agentropic_messaging::protocols::request_reply::Waited;
use std::sync::{Arc, Mutex, RwLock};
use std::time::{Duration, Instant};
use tokio::sync::mpsc::UnboundedReceiver;
use tokio::sync::oneshot;

struct Exchange {
    router: Arc<RwLock<Router>>,
    tracker: Arc<Mutex<CorrelationTracker>>,
    protocol: Arc<RequestReply>,
    timeout: Duration,
    epoch: Instant,
}

impl Exchange {
    fn new(timeout: Duration) -> Exchange {
        Exchange {
            router: Arc::new(RwLock::new(Router::new())),
            tracker: Arc::new(Mutex::new(CorrelationTracker::new())),
            protocol: Arc::new(RequestReply::new(timeout.as_millis() as u64)),
            timeout,
            epoch: Instant::now(),
        }
    }

    fn share(&self) -> Exchange {
        Exchange {
            router: self.router.clone(),
            tracker: self.tracker.clone(),
            protocol: self.protocol.clone(),
            timeout: self.timeout,
            epoch: self.epoch,
        }
    }

    fn now(&self) -> u64 {
        self.epoch.elapsed().as_millis() as u64
    }

    fn register(&self, agent: AgentId) -> UnboundedReceiver<Message> {
        self.router.write().unwrap().register(agent).unwrap()
    }

    fn send(&self, message: Message) -> Result<(), MessagingError> {
        self.router.read().unwrap().send(message)
    }

    fn outstanding(&self) -> usize {
        self.tracker.lock().unwrap().outstanding()
    }

    async fn send_request(&self, request: Message) -> Result<Message, MessagingError> {
        let (slot, mut resolved) = oneshot::channel();
        let key = {
            let mut tracker = self.tracker.lock().unwrap();
            let router = self.router.read().unwrap();
            self.protocol.send_request(&router, &mut tracker, request, self.now(), slot)?
        };
        let waited = match tokio::time::timeout(self.timeout, &mut resolved).await {
            Ok(Ok(reply)) => Waited::Reply(reply),
            Ok(Err(_)) => Waited::Deserted,
            Err(_) => Waited::Deadline,
        };
        let mut tracker = self.tracker.lock().unwrap();
        self.protocol.conclude(&mut tracker, key, waited, &mut resolved, self.now())
    }

    async fn receive(&self, inbound: &mut UnboundedReceiver<Message>) -> Option<Message> {
        while let Some(message) = inbound.recv().await {
            let passed = self.tracker.lock().unwrap().demultiplex(message);
            if passed.is_some() {
                return passed;
            }
        }
        None
    }
}

fn runtime() -> tokio::runtime::Runtime {
    tokio::runtime::Builder::new_current_thread()
        .enable_time()
        .build()
        .unwrap()
}

#[test]
fn request_resolves_with_the_reply_sent_within_the_timeout() {
    runtime().block_on(async {
        let exchange = Exchange::new(Duration::from_millis(500));
        let a = AgentId::new();
        let b = AgentId::new();
        let mut to_a = exchange.register(a);
        let mut to_b = exchange.register(b);

        let responder = exchange.share();
        let answering = tokio::spawn(async move {
            let request = responder.receive(&mut to_b).await.unwrap();
            assert_eq!(request.performative(), Performative::Request);
            tokio::time::sleep(Duration::from_millis(50)).await;
            let reply = Message::new(b, a, Performative::Inform, "42").with_reply_to(request.id());
            let id = reply.id();
            responder.send(reply).unwrap();
            (request.id(), id)
        });
        let listener = exchange.share();
        let listening = tokio::spawn(async move { listener.receive(&mut to_a).await });

        let request = Message::new(a, b, Performative::Request, "the answer?");
        let request_id = request.id();
        let reply = exchange.send_request(request).await.unwrap();

        let (seen_id, reply_id) = answering.await.unwrap();
        assert_eq!(seen_id, request_id);
        assert_eq!(reply.id(), reply_id);
        assert_eq!(reply.performative(), Performative::Inform);
        assert_eq!(reply.content(), "42");
        assert_eq!(reply.in_reply_to(), Some(request_id));
        assert_eq!(exchange.outstanding(), 0);

        exchange.send(Message::new(b, a, Performative::Inform, "by the way")).unwrap();
        let ordinary = listening.await.unwrap().unwrap();
        assert_eq!(ordinary.content(), "by the way");
    })
}

#[test]
fn request_without_a_responder_times_out() {
    runtime().block_on(async {
        let exchange = Exchange::new(Duration::from_millis(100));
        let a = AgentId::new();
        let b = AgentId::new();
        let _to_a = exchange.register(a);
        let _to_b = exchange.register(b);
        let before = exchange.outstanding();
        let started = Instant::now();

        let told = exchange
            .send_request(Message::new(a, b, Performative::Request, "anyone?"))
            .await;

        assert_eq!(told.err(), Some(MessagingError::Timeout));
        assert!(started.elapsed() >= Duration::from_millis(100));
        assert_eq!(exchange.outstanding(), before);
    })
}

#[test]
fn second_reply_goes_on_as_ordinary_traffic() {
    runtime().block_on(async {
        let exchange = Exchange::new(Duration::from_millis(500));
        let a = AgentId::new();
        let b = AgentId::new();
        let mut to_a = exchange.register(a);
        let mut to_b = exchange.register(b);

        let responder = exchange.share();
        tokio::spawn(async move {
            let request = responder.receive(&mut to_b).await.unwrap();
            for text in ["first", "second"] {
                let reply =
                    Message::new(b, a, Performative::Inform, text).with_reply_to(request.id());
                responder.send(reply).unwrap();
            }
        });
        let listener = exchange.share();
        let listening = tokio::spawn(async move { listener.receive(&mut to_a).await });

        let reply = exchange
            .send_request(Message::new(a, b, Performative::Request, "?"))
            .await
            .unwrap();

        assert_eq!(reply.content(), "first");
        let ordinary = listening.await.unwrap().unwrap();
        assert_eq!(ordinary.content(), "second");
        assert_eq!(exchange.outstanding(), 0);
    })
}

#[test]
fn two_requests_in_flight_resolve_each_with_its_own_reply() {
    runtime().block_on(async {
        let exchange = Exchange::new(Duration::from_millis(500));
        let a = AgentId::new();
        let b = AgentId::new();
        let mut to_a = exchange.register(a);
        let mut to_b = exchange.register(b);

        let responder = exchange.share();
        tokio::spawn(async move {
            let first = responder.receive(&mut to_b).await.unwrap();
            let second = responder.receive(&mut to_b).await.unwrap();
            for request in [second, first] {
                let text = format!("re: {}", request.content());
                let reply =
                    Message::new(b, a, Performative::Inform, &text).with_reply_to(request.id());
                responder.send(reply).unwrap();
            }
        });
        let listener = exchange.share();
        tokio::spawn(async move { listener.receive(&mut to_a).await });

        let one = exchange.share();
        let asking_one = tokio::spawn(async move {
            one.send_request(Message::new(a, b, Performative::Request, "one")).await
        });
        let two = exchange.share();
        let asking_two = tokio::spawn(async move {
            two.send_request(Message::new(a, b, Performative::Query, "two")).await
        });

        assert_eq!(asking_one.await.unwrap().unwrap().content(), "re: one");
        assert_eq!(asking_two.await.unwrap().unwrap().content(), "re: two");
        assert_eq!(exchange.outstanding(), 0);
    })
}

#[test]
fn request_to_an_unregistered_agent_fails_at_once() {
    runtime().block_on(async {
        let exchange = Exchange::new(Duration::from_millis(500));
        let a = AgentId::new();
        let _to_a = exchange.register(a);
        let started = Instant::now();

        let told = exchange
            .send_request(Message::new(a, AgentId::new(), Performative::Request, "?"))
            .await;

        assert_eq!(told.err(), Some(MessagingError::AgentNotFound));
        assert!(started.elapsed() < Duration::from_millis(500));
        assert_eq!(exchange.outstanding(), 0);
    })
}

#[test]
fn messages_from_concurrent_senders_keep_each_sender_s_order() {
    runtime().block_on(async {
        let exchange = Exchange::new(Duration::from_millis(500));
        let a = AgentId::new();
        let mut to_a = exchange.register(a);
        let senders: Vec<AgentId> = (0..4).map(|_| AgentId::new()).collect();

        let mut sending = Vec::new();
        for sender in senders.iter().copied() {
            let link = exchange.share();
            sending.push(tokio::spawn(async move {
                for n in 0..25 {
                    let text = format!("{}", n);
                    link.send(Message::new(sender, a, Performative::Inform, &text)).unwrap();
                    tokio::task::yield_now().await;
                }
            }));
        }
        for task in sending {
            task.await.unwrap();
        }

        let mut seen = Vec::new();
        while let Ok(message) = to_a.try_recv() {
            seen.push((message.sender(), String::from(message.content())));
        }
        assert_eq!(seen.len(), 100);
        for sender in senders {
            let from_sender: Vec<String> = seen
                .iter()
                .filter(|(from, _)| *from == sender)
                .map(|(_, text)| text.clone())
                .collect();
            let expected: Vec<String> = (0..25).map(|n| format!("{}", n)).collect();
            assert_eq!(from_sender, expected);
        }
    })
}
