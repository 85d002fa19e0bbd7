use orchestrator::catalog::StoreError;
use orchestrator::models::{CreateBotReq, CreateVirtualMachineReq, Frequencia, UpdateBotReq, UpdateVirtualMachineReq};
use orchestrator::statements::{self, Param};

#[test]
fn insert_vm_binds_fields_in_order() {
    let req = CreateVirtualMachineReq {
        nome_vm: "vm1".to_string(),
        endereco_ipv4_vm: Some("10.0.0.1".to_string()),
        flg_status_vm: true,
    };
    let s = statements::insert_vm(&req).ok().unwrap();
    assert!(s.sql.starts_with("INSERT INTO orchestrator.virtual_machines"));
    assert!(s.sql.ends_with("RETURNING id"));
    assert_eq!(s.params.len(), 3);
    assert!(matches!(&s.params[0], Param::Text(t) if t == "vm1"));
    assert!(matches!(&s.params[1], Param::OptText(Some(t)) if t == "10.0.0.1"));
    assert!(matches!(&s.params[2], Param::Bool(true)));
}

#[test]
fn insert_vm_refuses_empty_name() {
    let req = CreateVirtualMachineReq { nome_vm: String::new(), endereco_ipv4_vm: None, flg_status_vm: true };
    assert!(matches!(statements::insert_vm(&req), Err(StoreError::EmptyName)));
}

#[test]
fn update_vm_binds_id_first() {
    let req = UpdateVirtualMachineReq { nome_vm: Some("x".to_string()), endereco_ipv4_vm: None, flg_status_vm: Some(true) };
    let s = statements::update_vm(1, &req).ok().unwrap();
    assert!(s.sql.contains("COALESCE($2, nome_vm)"));
    assert!(s.sql.contains("endereco_ipv4_vm = $3,"));
    assert_eq!(s.params.len(), 4);
    assert!(matches!(&s.params[0], Param::Int(1)));
    assert!(matches!(&s.params[1], Param::OptText(Some(t)) if t == "x"));
    assert!(matches!(&s.params[2], Param::OptText(None)));
    assert!(matches!(&s.params[3], Param::OptBool(Some(true))));
    let blank = UpdateVirtualMachineReq { nome_vm: Some(String::new()), endereco_ipv4_vm: None, flg_status_vm: None };
    assert!(matches!(statements::update_vm(1, &blank), Err(StoreError::EmptyName)));
}

#[test]
fn delete_and_select_statements() {
    let d = statements::delete_vm(5);
    assert_eq!(d.sql, "DELETE FROM orchestrator.virtual_machines WHERE id = $1");
    assert!(matches!(d.params.as_slice(), [Param::Int(5)]));
    let d = statements::delete_bot(6);
    assert_eq!(d.sql, "DELETE FROM orchestrator.bots WHERE id = $1");
    assert!(matches!(d.params.as_slice(), [Param::Int(6)]));
    assert!(statements::select_vms().sql.ends_with("ORDER BY id ASC"));
    assert!(statements::select_vms().params.is_empty());
    assert!(statements::select_bots().sql.ends_with("ORDER BY id ASC"));
    assert!(statements::select_bots().params.is_empty());
}

#[test]
fn insert_bot_binds_cadence() {
    let req = CreateBotReq {
        nome_automacao: "job1".to_string(),
        flg_status_bot: true,
        frequencia_execucao: Frequencia::Diaria,
        dia_execucao: None,
        hora_execucao: Some("10:00".to_string()),
        intervalo_execucao: Some(15),
        tolerancia_execucao: None,
        virtual_machine_id: 1,
    };
    let s = statements::insert_bot(&req).ok().unwrap();
    assert!(s.sql.contains("$3::enum_frequencia"));
    assert_eq!(s.params.len(), 8);
    assert!(matches!(&s.params[2], Param::Frequency(Frequencia::Diaria)));
    assert!(matches!(&s.params[4], Param::OptText(Some(t)) if t == "10:00"));
    assert!(matches!(&s.params[5], Param::OptInt(Some(15))));
    assert!(matches!(&s.params[7], Param::Int(1)));
}

#[test]
fn update_bot_binds_nine_values() {
    let req = UpdateBotReq {
        nome_automacao: None,
        flg_status_bot: Some(false),
        frequencia_execucao: None,
        dia_execucao: None,
        hora_execucao: None,
        intervalo_execucao: None,
        tolerancia_execucao: Some(3),
        virtual_machine_id: Some(2),
    };
    let s = statements::update_bot(4, &req).ok().unwrap();
    assert_eq!(s.params.len(), 9);
    assert!(matches!(&s.params[0], Param::Int(4)));
    assert!(matches!(&s.params[3], Param::OptFrequency(None)));
    assert!(matches!(&s.params[7], Param::OptInt(Some(3))));
    assert!(matches!(&s.params[8], Param::OptInt(Some(2))));
    assert!(s.sql.contains("COALESCE($4::enum_frequencia, frequencia_execucao)"));
}
