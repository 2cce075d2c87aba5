use garage_brain::net;
use garage_brain::host_net;

#[test]
fn coop_channel_ids() {
    assert_eq!(net::ClientChannel::Input.channel_id(), 1);
    assert_eq!(net::ServerChannel::NetworkedEntities.channel_id(), 0);
    assert_eq!(net::ServerChannel::ServerMessages.channel_id(), 1);
}

#[test]
fn host_channel_ids() {
    assert_eq!(host_net::ClientChannel::Command.channel_id(), 0);
    assert_eq!(host_net::ClientChannel::Input.channel_id(), 1);
    assert_eq!(host_net::ServerChannel::NetworkedEntities.channel_id(), 0);
    assert_eq!(host_net::ServerChannel::ServerMessages.channel_id(), 1);
}

#[test]
fn player_input_drives_controls() {
    let cases: [(bool, bool, bool, bool, u8, u8, i8); 6] = [
        // forward, left, right, brake -> gas, brake, steering
        (true, false, false, false, 1, 0, 0),
        (false, false, false, true, 0, 1, 0),
        (true, true, false, false, 1, 0, -1),
        (true, false, true, false, 1, 0, 1),
        (false, true, true, false, 0, 0, 1),
        (false, false, false, false, 0, 0, 0),
    ];
    for (forward, left, right, brake, gas, brk, steer) in cases {
        let input = net::PlayerInput { forward, left, right, brake };
        let c = net::controls_for_input(&input);
        assert_eq!((c.gas, c.brake, c.steering), (gas, brk, steer));
    }
}

#[test]
fn player_ids_carry_through() {
    let p = net::Player { id: 42 };
    assert_eq!(p.id, 42);
    let q = host_net::Player { id: 7 };
    assert_eq!(q.id, 7);
    let input = host_net::PlayerInput { up: true, down: false, left: false, right: true };
    assert!(input.up && input.right);
}
