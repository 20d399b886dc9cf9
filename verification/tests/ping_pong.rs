use std::sync::atomic::AtomicUsize;
use std::sync::atomic::Ordering;
use std::sync::Arc;

use xacto::Act;
use xacto::Actor;
use xacto::ActorError;
use xacto::ActorSelf;
use xacto::ActorTask;
use xacto::Scope;
use xacto::ScopeContext;
use xacto::TaskProgress;

#[derive(Debug)]
enum PpMsg {
    Ping(Act<PpMsg>),
    Pong(Act<PpMsg>),
}

/// Replies to whoever sent the message, flipping ping to pong, and exits
/// itself after seeing more than five messages — so each side handles
/// exactly six before terminating.
struct PingPong {
    count: Arc<AtomicUsize>,
}

impl Actor for PingPong {
    type Args = Arc<AtomicUsize>;
    type Msg = PpMsg;

    fn start(_this: &ActorSelf<PpMsg>, args: Arc<AtomicUsize>) -> Result<Self, ActorError> {
        Ok(PingPong { count: args })
    }

    fn receive(&mut self, this: &ActorSelf<PpMsg>, msg: PpMsg) -> Result<(), ActorError> {
        let own = this.act().clone();
        let (from, response) = match msg {
            PpMsg::Ping(from) => (from, PpMsg::Pong(own)),
            PpMsg::Pong(from) => (from, PpMsg::Ping(own)),
        };
        let _ = from.try_cast(response);
        let seen = self.count.fetch_add(1, Ordering::SeqCst) + 1;
        if seen > 5 {
            this.exit();
        }
        Ok(())
    }

    fn exit(&mut self) -> Result<(), ActorError> {
        Ok(())
    }
}

#[test]
fn ping_pong_both_exit_after_six_exchanges_each() {
    let mut ctx = ScopeContext::new();
    let mut scope = Scope::new(&mut ctx);

    let slot1 = scope.prepare_spawn::<PpMsg>(8).unwrap();
    let slot2 = scope.prepare_spawn::<PpMsg>(8).unwrap();
    let act1 = slot1.act.clone();
    let act2 = slot2.act.clone();

    let c1 = Arc::new(AtomicUsize::new(0));
    let c2 = Arc::new(AtomicUsize::new(0));

    let mut t1: ActorTask<PingPong> = ActorTask::new(slot1.act, slot1.rx, slot1.cancel);
    let mut t2: ActorTask<PingPong> = ActorTask::new(slot2.act, slot2.rx, slot2.cancel);
    t1.start(c1.clone()).unwrap();
    t2.start(c2.clone()).unwrap();

    // Kick the exchange: the first actor receives a ping carrying the
    // second actor's address and the two alternate from there.
    act1.try_cast(PpMsg::Ping(act2.clone())).unwrap();
    drop(act1);
    drop(act2);

    let mut t1_done = false;
    let mut t2_done = false;
    for _ in 0..100 {
        if !t1_done {
            match t1.poll_once().expect("no handling error") {
                TaskProgress::Finished => t1_done = true,
                _ => {}
            }
        }
        if !t2_done {
            match t2.poll_once().expect("no handling error") {
                TaskProgress::Finished => t2_done = true,
                _ => {}
            }
        }
        if t1_done && t2_done {
            break;
        }
    }

    assert!(t1_done, "first actor never terminated");
    assert!(t2_done, "second actor never terminated");
    assert_eq!(c1.load(Ordering::SeqCst), 6);
    assert_eq!(c2.load(Ordering::SeqCst), 6);
}
