use iroh::rpc::{first_rpc_bind, next_rpc_bind, BindOutcome, RpcBindStep};

#[test]
fn rpc_binds_preferred_port_first() {
    assert_eq!(first_rpc_bind(0x1337), RpcBindStep::Bind { port: 0x1337 });
    assert_eq!(next_rpc_bind(true, BindOutcome::Bound { port: 0x1337 }), RpcBindStep::Done { port: 0x1337 });
}

#[test]
fn rpc_port_in_use_falls_back_to_any_port() {
    assert_eq!(next_rpc_bind(true, BindOutcome::AddrInUse), RpcBindStep::Bind { port: 0 });
    assert_eq!(next_rpc_bind(false, BindOutcome::Bound { port: 50123 }), RpcBindStep::Done { port: 50123 });
    assert_eq!(next_rpc_bind(false, BindOutcome::AddrInUse), RpcBindStep::Fail);
}

#[test]
fn rpc_other_bind_errors_fail() {
    assert_eq!(next_rpc_bind(true, BindOutcome::Failed), RpcBindStep::Fail);
    assert_eq!(next_rpc_bind(false, BindOutcome::Failed), RpcBindStep::Fail);
}
