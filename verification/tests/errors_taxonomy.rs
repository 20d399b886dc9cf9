use xacto::ActorError;
use xacto::CallError;
use xacto::RecvError;
use xacto::SendError;

#[test]
fn descriptions_name_the_category() {
    assert_eq!(ActorError::Send(SendError::Full(())).describe(), "actor send error");
    assert_eq!(ActorError::Recv(RecvError::Closed).describe(), "actor recv error");
    assert_eq!(
        ActorError::Link(xacto::LinkError::Unavailable(())).describe(),
        "actor link error"
    );
    assert_eq!(ActorError::Unknown("boom".to_string()).describe(), "actor unknown error");
}

#[test]
fn send_errors_convert_keeping_the_category() {
    let full: ActorError = SendError::Full(41u32).into();
    assert!(matches!(full, ActorError::Send(SendError::Full(()))));
    let closed: ActorError = SendError::Closed("gone".to_string()).into();
    assert!(matches!(closed, ActorError::Send(SendError::Closed(()))));
}

#[test]
fn call_errors_convert_to_their_failing_half() {
    let send_half: ActorError = CallError::Send(SendError::Full(7u32)).into();
    assert!(matches!(send_half, ActorError::Send(SendError::Full(()))));
    let recv_half: ActorError = CallError::<u32>::Recv(RecvError::Closed).into();
    assert!(matches!(recv_half, ActorError::Recv(RecvError::Closed)));
    let timeout_half: ActorError = CallError::<u32>::Recv(RecvError::Timeout).into();
    assert!(matches!(timeout_half, ActorError::Recv(RecvError::Timeout)));
}
