use orchestrator::catalog::Catalog;
use orchestrator::envelope::{
    bot_object, bot_object_with, bots_body, created_body, error_body, error_body_with, ok_body,
    vm_object, vm_object_with, vms_body,
};
use orchestrator::handlers;
use orchestrator::models::{
    BotsRow, CreateBotReq, CreateVirtualMachineReq, Frequencia, UpdateVirtualMachineReq,
    VirtualMachineRow,
};

fn vm1() -> CreateVirtualMachineReq {
    CreateVirtualMachineReq {
        nome_vm: "vm1".to_string(),
        endereco_ipv4_vm: Some("10.0.0.1".to_string()),
        flg_status_vm: true,
    }
}

fn job1(frequency: &str, vm_id: i32) -> CreateBotReq {
    CreateBotReq {
        nome_automacao: "job1".to_string(),
        flg_status_bot: true,
        frequencia_execucao: Frequencia::from_name(frequency).unwrap(),
        dia_execucao: None,
        hora_execucao: None,
        intervalo_execucao: None,
        tolerancia_execucao: None,
        virtual_machine_id: vm_id,
    }
}

#[test]
fn end_to_end_vm_then_bot_then_listing() {
    let mut c = Catalog::new();
    let (status, body) = handlers::create_vm(&mut c, vm1());
    assert_eq!(status, 201);
    assert_eq!(body, r#"{"sucess":true,"data":{"id":1}}"#);
    let (status, body) = handlers::create_bot(&mut c, job1("diaria", 1));
    assert_eq!(status, 201);
    assert_eq!(body, r#"{"sucess":true,"data":{"id":1}}"#);
    let (status, body) = handlers::get_bots(&c);
    assert_eq!(status, 200);
    assert_eq!(
        body,
        r#"{"sucess":true,"data":[{"id":1,"nome_automacao":"job1","flg_status_bot":true,"frequencia_execucao":"diaria","dia_execucao":null,"hora_execucao":null,"intervalo_execucao":null,"tolerancia_execucao":null,"virtual_machine_id":1}]}"#
    );
    assert!(body.contains(r#""frequencia_execucao":"diaria""#));
}

#[test]
fn listing_vms_after_update() {
    let mut c = Catalog::new();
    handlers::create_vm(&mut c, vm1());
    let upd = UpdateVirtualMachineReq {
        nome_vm: Some("x".to_string()),
        endereco_ipv4_vm: None,
        flg_status_vm: Some(true),
    };
    let (status, body) = handlers::update_vm(&mut c, 1, upd);
    assert_eq!(status, 200);
    assert_eq!(body, r#"{"sucess":true}"#);
    let (status, body) = handlers::get_vms(&c);
    assert_eq!(status, 200);
    assert_eq!(
        body,
        r#"{"sucess":true,"data":[{"id":1,"nome_vm":"x","endereco_ipv4_vm":null,"flg_status_vm":true}]}"#
    );
}

#[test]
fn empty_listings() {
    let c = Catalog::new();
    assert_eq!(handlers::get_vms(&c), (200, r#"{"sucess":true,"data":[]}"#.to_string()));
    assert_eq!(handlers::get_bots(&c), (200, r#"{"sucess":true,"data":[]}"#.to_string()));
}

#[test]
fn bot_on_unknown_vm_is_refused() {
    let mut c = Catalog::new();
    let (status, body) = handlers::create_bot(&mut c, job1("semanal", 4));
    assert_eq!(status, 500);
    assert_eq!(body, r#"{"sucess":false,"message":"virtual machine not found"}"#);
    assert_eq!(handlers::get_bots(&c).1, r#"{"sucess":true,"data":[]}"#);
}

#[test]
fn empty_vm_name_is_a_client_error() {
    let mut c = Catalog::new();
    let req = CreateVirtualMachineReq { nome_vm: String::new(), endereco_ipv4_vm: None, flg_status_vm: true };
    let (status, body) = handlers::create_vm(&mut c, req);
    assert_eq!(status, 400);
    assert_eq!(body, r#"{"sucess":false,"message":"name must not be empty"}"#);
}

#[test]
fn delete_handlers() {
    let mut c = Catalog::new();
    handlers::create_vm(&mut c, vm1());
    handlers::create_bot(&mut c, job1("mensal", 1));
    let (status, body) = handlers::delete_vm(&mut c, 1);
    assert_eq!(status, 500);
    assert_eq!(body, r#"{"sucess":false,"message":"virtual machine is still referenced by bots"}"#);
    assert_eq!(handlers::delete_bot(&mut c, 1), (200, r#"{"sucess":true}"#.to_string()));
    assert_eq!(handlers::delete_bot(&mut c, 1), (200, r#"{"sucess":true}"#.to_string()));
    assert_eq!(handlers::delete_vm(&mut c, 1), (200, r#"{"sucess":true}"#.to_string()));
    assert_eq!(handlers::delete_vm(&mut c, 1), (200, r#"{"sucess":true}"#.to_string()));
    assert_eq!(handlers::get_vms(&c).1, r#"{"sucess":true,"data":[]}"#);
}

#[test]
fn store_failure_carries_message() {
    let (status, body) = handlers::store_failure("connection refused");
    assert_eq!(status, 500);
    assert_eq!(body, r#"{"sucess":false,"message":"connection refused"}"#);
}

#[test]
fn error_body_escapes_text() {
    assert_eq!(error_body("say \"hi\"\n"), r#"{"sucess":false,"message":"say \"hi\"\n"}"#);
}

#[test]
fn created_body_writes_decimal() {
    assert_eq!(created_body(42), r#"{"sucess":true,"data":{"id":42}}"#);
    assert_eq!(created_body(-7), r#"{"sucess":true,"data":{"id":-7}}"#);
    assert_eq!(created_body(2147483647), r#"{"sucess":true,"data":{"id":2147483647}}"#);
}

#[test]
fn ok_body_text() {
    assert_eq!(ok_body(), r#"{"sucess":true}"#);
}

#[test]
fn vm_objects_and_list() {
    let a = VirtualMachineRow { id: 3, nome_vm: "a\\b".to_string(), endereco_ipv4_vm: None, flg_status_vm: false };
    let b = VirtualMachineRow {
        id: 10,
        nome_vm: "b".to_string(),
        endereco_ipv4_vm: Some("192.168.0.1".to_string()),
        flg_status_vm: true,
    };
    assert_eq!(vm_object(&a), r#"{"id":3,"nome_vm":"a\\b","endereco_ipv4_vm":null,"flg_status_vm":false}"#);
    assert_eq!(
        vms_body(&vec![a, b]),
        r#"{"sucess":true,"data":[{"id":3,"nome_vm":"a\\b","endereco_ipv4_vm":null,"flg_status_vm":false},{"id":10,"nome_vm":"b","endereco_ipv4_vm":"192.168.0.1","flg_status_vm":true}]}"#
    );
}

#[test]
fn frequency_names_round_trip() {
    let all = [
        Frequencia::Diaria,
        Frequencia::Semanal,
        Frequencia::Mensal,
        Frequencia::Trimestral,
        Frequencia::Intervalo,
        Frequencia::Demanda,
    ];
    let names = ["diaria", "semanal", "mensal", "trimestral", "intervalo", "demanda"];
    for (f, n) in all.iter().zip(names.iter()) {
        assert_eq!(f.as_str(), *n);
        assert_eq!(Frequencia::from_name(n), Some(*f));
    }
}

#[test]
fn frequency_outside_domain_is_refused() {
    assert_eq!(Frequencia::from_name("daily"), None);
    assert_eq!(Frequencia::from_name("Diaria"), None);
    assert_eq!(Frequencia::from_name(""), None);
    assert_eq!(Frequencia::from_name("diaria "), None);
}

#[test]
fn bodies_from_quoted_text() {
    assert_eq!(error_body_with("\"boom\""), r#"{"sucess":false,"message":"boom"}"#);
    let row = VirtualMachineRow { id: 2, nome_vm: "ignored".to_string(), endereco_ipv4_vm: None, flg_status_vm: true };
    assert_eq!(
        vm_object_with(&row, "\"n\"", "\"1.2.3.4\""),
        r#"{"id":2,"nome_vm":"n","endereco_ipv4_vm":"1.2.3.4","flg_status_vm":true}"#
    );
}

#[test]
fn bot_objects_and_list() {
    let bot = BotsRow {
        id: 5,
        nome_automacao: "nightly".to_string(),
        flg_status_bot: false,
        frequencia_execucao: Frequencia::Intervalo,
        dia_execucao: Some("mon".to_string()),
        hora_execucao: Some("23:00".to_string()),
        intervalo_execucao: Some(-15),
        tolerancia_execucao: Some(0),
        virtual_machine_id: 12,
    };
    let expected = r#"{"id":5,"nome_automacao":"nightly","flg_status_bot":false,"frequencia_execucao":"intervalo","dia_execucao":"mon","hora_execucao":"23:00","intervalo_execucao":-15,"tolerancia_execucao":0,"virtual_machine_id":12}"#;
    assert_eq!(bot_object(&bot), expected);
    assert_eq!(
        bot_object_with(&bot, "\"a\"", "\"demanda\"", "null", "null"),
        r#"{"id":5,"nome_automacao":"a","flg_status_bot":false,"frequencia_execucao":"demanda","dia_execucao":null,"hora_execucao":null,"intervalo_execucao":-15,"tolerancia_execucao":0,"virtual_machine_id":12}"#
    );
    let twice = bots_body(&vec![bot.copy(), bot]);
    assert_eq!(twice, format!(r#"{{"sucess":true,"data":[{},{}]}}"#, expected, expected));
}
