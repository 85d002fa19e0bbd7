use vstd::prelude::*;
use crate::catalog::{empty_name_given, StoreError};
use crate::models::{
    copy_opt_text, is_blank, opt_text, CreateBotReq, CreateVirtualMachineReq, Frequencia,
    UpdateBotReq, UpdateVirtualMachineReq,
};

verus! {

/// A value bound to one placeholder of a statement.
pub enum Param {
    Int(i32),
    Bool(bool),
    Text(String),
    Frequency(Frequencia),
    OptInt(Option<i32>),
    OptBool(Option<bool>),
    OptText(Option<String>),
    OptFrequency(Option<Frequencia>),
}

/// A bound value as plain values.
pub ghost enum ParamModel {
    Int(i32),
    Bool(bool),
    Text(Seq<char>),
    Frequency(Frequencia),
    OptInt(Option<i32>),
    OptBool(Option<bool>),
    OptText(Option<Seq<char>>),
    OptFrequency(Option<Frequencia>),
}

impl View for Param {
    type V = ParamModel;

    open spec fn view(&self) -> ParamModel {
        match self {
            Param::Int(v) => ParamModel::Int(*v),
            Param::Bool(b) => ParamModel::Bool(*b),
            Param::Text(t) => ParamModel::Text(t@),
            Param::Frequency(f) => ParamModel::Frequency(*f),
            Param::OptInt(o) => ParamModel::OptInt(*o),
            Param::OptBool(o) => ParamModel::OptBool(*o),
            Param::OptText(o) => ParamModel::OptText(opt_text(*o)),
            Param::OptFrequency(o) => ParamModel::OptFrequency(*o),
        }
    }
}

/// One parameterized statement: its text, with placeholders `$1`, `$2`, ...,
/// and the values bound to them in order. No value is ever written into the text.
pub struct Statement {
    pub sql: &'static str,
    pub params: Vec<Param>,
}

/// The values of a statement's parameters, in order.
pub open spec fn param_views(v: Seq<Param>) -> Seq<ParamModel> {
    v.map_values(|p: Param| p@)
}

/// Reads all virtual machines, by ascending id.
pub open spec fn select_vms_sql() -> Seq<char> {
    "SELECT id, nome_vm, endereco_ipv4_vm, flg_status_vm FROM orchestrator.virtual_machines ORDER BY id ASC"@
}

/// Adds a virtual machine and returns the id the store gives it.
pub open spec fn insert_vm_sql() -> Seq<char> {
    "INSERT INTO orchestrator.virtual_machines (nome_vm, endereco_ipv4_vm, flg_status_vm) VALUES ($1, $2, $3) RETURNING id"@
}

/// Changes a virtual machine by the rule of `merge_vm`: name and status are
/// kept where no value is bound, the address is written as bound.
pub open spec fn update_vm_sql() -> Seq<char> {
    "UPDATE orchestrator.virtual_machines SET nome_vm = COALESCE($2, nome_vm), endereco_ipv4_vm = $3, flg_status_vm = COALESCE($4, flg_status_vm) WHERE id = $1"@
}

/// Removes a virtual machine; the store refuses while bots refer to it.
pub open spec fn delete_vm_sql() -> Seq<char> {
    "DELETE FROM orchestrator.virtual_machines WHERE id = $1"@
}

/// Reads all bots, by ascending id, with the cadence as its name.
pub open spec fn select_bots_sql() -> Seq<char> {
    "SELECT id, nome_automacao, flg_status_bot, frequencia_execucao::text AS frequencia_execucao, dia_execucao, hora_execucao, intervalo_execucao, tolerancia_execucao, virtual_machine_id FROM orchestrator.bots ORDER BY id ASC"@
}

/// Adds a bot and returns the id the store gives it; the store checks the
/// cadence against its own enumerated type and the virtual machine reference.
pub open spec fn insert_bot_sql() -> Seq<char> {
    "INSERT INTO orchestrator.bots (nome_automacao, flg_status_bot, frequencia_execucao, dia_execucao, hora_execucao, intervalo_execucao, tolerancia_execucao, virtual_machine_id) VALUES ($1, $2, $3::enum_frequencia, $4, $5, $6, $7, $8) RETURNING id"@
}

/// Changes a bot by the rule of `merge_bot`.
pub open spec fn update_bot_sql() -> Seq<char> {
    "UPDATE orchestrator.bots SET nome_automacao = COALESCE($2, nome_automacao), flg_status_bot = COALESCE($3, flg_status_bot), frequencia_execucao = COALESCE($4::enum_frequencia, frequencia_execucao), dia_execucao = $5, hora_execucao = $6, intervalo_execucao = $7, tolerancia_execucao = $8, virtual_machine_id = COALESCE($9, virtual_machine_id) WHERE id = $1"@
}

/// Removes a bot.
pub open spec fn delete_bot_sql() -> Seq<char> {
    "DELETE FROM orchestrator.bots WHERE id = $1"@
}

/// The statement that lists virtual machines.
pub fn select_vms() -> (r: Statement)
    ensures
        r.sql@ == select_vms_sql(),
        r.params@.len() == 0,
{
    Statement {
        sql: "SELECT id, nome_vm, endereco_ipv4_vm, flg_status_vm FROM orchestrator.virtual_machines ORDER BY id ASC",
        params: Vec::new(),
    }
}

/// The statement that creates a virtual machine. An empty name is refused
/// before any statement is made.
pub fn insert_vm(req: &CreateVirtualMachineReq) -> (r: Result<Statement, StoreError>)
    ensures
        req.nome_vm@.len() == 0 <==> r is Err,
        match r {
            Ok(s) => s.sql@ == insert_vm_sql() && param_views(s.params@) == seq![
                ParamModel::Text(req.nome_vm@),
                ParamModel::OptText(opt_text(req.endereco_ipv4_vm)),
                ParamModel::Bool(req.flg_status_vm),
            ],
            Err(e) => e == StoreError::EmptyName,
        },
{
    if is_blank(&req.nome_vm) {
        return Err(StoreError::EmptyName);
    }
    let params = vec![
        Param::Text(req.nome_vm.clone()),
        Param::OptText(copy_opt_text(&req.endereco_ipv4_vm)),
        Param::Bool(req.flg_status_vm),
    ];
    let s = Statement {
        sql: "INSERT INTO orchestrator.virtual_machines (nome_vm, endereco_ipv4_vm, flg_status_vm) VALUES ($1, $2, $3) RETURNING id",
        params,
    };
    assert(param_views(s.params@) =~= seq![
        ParamModel::Text(req.nome_vm@),
        ParamModel::OptText(opt_text(req.endereco_ipv4_vm)),
        ParamModel::Bool(req.flg_status_vm),
    ]);
    Ok(s)
}

/// The statement that changes the virtual machine `id`. A name that is given
/// empty is refused before any statement is made.
pub fn update_vm(id: i32, req: &UpdateVirtualMachineReq) -> (r: Result<Statement, StoreError>)
    ensures
        empty_name_given(req.nome_vm) <==> r is Err,
        match r {
            Ok(s) => s.sql@ == update_vm_sql() && param_views(s.params@) == seq![
                ParamModel::Int(id),
                ParamModel::OptText(opt_text(req.nome_vm)),
                ParamModel::OptText(opt_text(req.endereco_ipv4_vm)),
                ParamModel::OptBool(req.flg_status_vm),
            ],
            Err(e) => e == StoreError::EmptyName,
        },
{
    let given_blank = match &req.nome_vm {
        Some(t) => is_blank(t),
        None => false,
    };
    if given_blank {
        return Err(StoreError::EmptyName);
    }
    let params = vec![
        Param::Int(id),
        Param::OptText(copy_opt_text(&req.nome_vm)),
        Param::OptText(copy_opt_text(&req.endereco_ipv4_vm)),
        Param::OptBool(req.flg_status_vm),
    ];
    let s = Statement {
        sql: "UPDATE orchestrator.virtual_machines SET nome_vm = COALESCE($2, nome_vm), endereco_ipv4_vm = $3, flg_status_vm = COALESCE($4, flg_status_vm) WHERE id = $1",
        params,
    };
    assert(param_views(s.params@) =~= seq![
        ParamModel::Int(id),
        ParamModel::OptText(opt_text(req.nome_vm)),
        ParamModel::OptText(opt_text(req.endereco_ipv4_vm)),
        ParamModel::OptBool(req.flg_status_vm),
    ]);
    Ok(s)
}

/// The statement that removes the virtual machine `id`.
pub fn delete_vm(id: i32) -> (r: Statement)
    ensures
        r.sql@ == delete_vm_sql(),
        param_views(r.params@) == seq![ParamModel::Int(id)],
{
    let s = Statement { sql: "DELETE FROM orchestrator.virtual_machines WHERE id = $1", params: vec![Param::Int(id)] };
    assert(param_views(s.params@) =~= seq![ParamModel::Int(id)]);
    s
}

/// The statement that lists bots.
pub fn select_bots() -> (r: Statement)
    ensures
        r.sql@ == select_bots_sql(),
        r.params@.len() == 0,
{
    Statement {
        sql: "SELECT id, nome_automacao, flg_status_bot, frequencia_execucao::text AS frequencia_execucao, dia_execucao, hora_execucao, intervalo_execucao, tolerancia_execucao, virtual_machine_id FROM orchestrator.bots ORDER BY id ASC",
        params: Vec::new(),
    }
}

/// The statement that creates a bot. An empty name is refused before any
/// statement is made; the cadence is one of the six by its type.
pub fn insert_bot(req: &CreateBotReq) -> (r: Result<Statement, StoreError>)
    ensures
        req.nome_automacao@.len() == 0 <==> r is Err,
        match r {
            Ok(s) => s.sql@ == insert_bot_sql() && param_views(s.params@) == seq![
                ParamModel::Text(req.nome_automacao@),
                ParamModel::Bool(req.flg_status_bot),
                ParamModel::Frequency(req.frequencia_execucao),
                ParamModel::OptText(opt_text(req.dia_execucao)),
                ParamModel::OptText(opt_text(req.hora_execucao)),
                ParamModel::OptInt(req.intervalo_execucao),
                ParamModel::OptInt(req.tolerancia_execucao),
                ParamModel::Int(req.virtual_machine_id),
            ],
            Err(e) => e == StoreError::EmptyName,
        },
{
    if is_blank(&req.nome_automacao) {
        return Err(StoreError::EmptyName);
    }
    let params = vec![
        Param::Text(req.nome_automacao.clone()),
        Param::Bool(req.flg_status_bot),
        Param::Frequency(req.frequencia_execucao),
        Param::OptText(copy_opt_text(&req.dia_execucao)),
        Param::OptText(copy_opt_text(&req.hora_execucao)),
        Param::OptInt(req.intervalo_execucao),
        Param::OptInt(req.tolerancia_execucao),
        Param::Int(req.virtual_machine_id),
    ];
    let s = Statement {
        sql: "INSERT INTO orchestrator.bots (nome_automacao, flg_status_bot, frequencia_execucao, dia_execucao, hora_execucao, intervalo_execucao, tolerancia_execucao, virtual_machine_id) VALUES ($1, $2, $3::enum_frequencia, $4, $5, $6, $7, $8) RETURNING id",
        params,
    };
    assert(param_views(s.params@) =~= seq![
        ParamModel::Text(req.nome_automacao@),
        ParamModel::Bool(req.flg_status_bot),
        ParamModel::Frequency(req.frequencia_execucao),
        ParamModel::OptText(opt_text(req.dia_execucao)),
        ParamModel::OptText(opt_text(req.hora_execucao)),
        ParamModel::OptInt(req.intervalo_execucao),
        ParamModel::OptInt(req.tolerancia_execucao),
        ParamModel::Int(req.virtual_machine_id),
    ]);
    Ok(s)
}

/// The statement that changes the bot `id`. A name that is given empty is
/// refused before any statement is made.
pub fn update_bot(id: i32, req: &UpdateBotReq) -> (r: Result<Statement, StoreError>)
    ensures
        empty_name_given(req.nome_automacao) <==> r is Err,
        match r {
            Ok(s) => s.sql@ == update_bot_sql() && param_views(s.params@) == seq![
                ParamModel::Int(id),
                ParamModel::OptText(opt_text(req.nome_automacao)),
                ParamModel::OptBool(req.flg_status_bot),
                ParamModel::OptFrequency(req.frequencia_execucao),
                ParamModel::OptText(opt_text(req.dia_execucao)),
                ParamModel::OptText(opt_text(req.hora_execucao)),
                ParamModel::OptInt(req.intervalo_execucao),
                ParamModel::OptInt(req.tolerancia_execucao),
                ParamModel::OptInt(req.virtual_machine_id),
            ],
            Err(e) => e == StoreError::EmptyName,
        },
{
    let given_blank = match &req.nome_automacao {
        Some(t) => is_blank(t),
        None => false,
    };
    if given_blank {
        return Err(StoreError::EmptyName);
    }
    let params = vec![
        Param::Int(id),
        Param::OptText(copy_opt_text(&req.nome_automacao)),
        Param::OptBool(req.flg_status_bot),
        Param::OptFrequency(req.frequencia_execucao),
        Param::OptText(copy_opt_text(&req.dia_execucao)),
        Param::OptText(copy_opt_text(&req.hora_execucao)),
        Param::OptInt(req.intervalo_execucao),
        Param::OptInt(req.tolerancia_execucao),
        Param::OptInt(req.virtual_machine_id),
    ];
    let s = Statement {
        sql: "UPDATE orchestrator.bots SET nome_automacao = COALESCE($2, nome_automacao), flg_status_bot = COALESCE($3, flg_status_bot), frequencia_execucao = COALESCE($4::enum_frequencia, frequencia_execucao), dia_execucao = $5, hora_execucao = $6, intervalo_execucao = $7, tolerancia_execucao = $8, virtual_machine_id = COALESCE($9, virtual_machine_id) WHERE id = $1",
        params,
    };
    assert(param_views(s.params@) =~= seq![
        ParamModel::Int(id),
        ParamModel::OptText(opt_text(req.nome_automacao)),
        ParamModel::OptBool(req.flg_status_bot),
        ParamModel::OptFrequency(req.frequencia_execucao),
        ParamModel::OptText(opt_text(req.dia_execucao)),
        ParamModel::OptText(opt_text(req.hora_execucao)),
        ParamModel::OptInt(req.intervalo_execucao),
        ParamModel::OptInt(req.tolerancia_execucao),
        ParamModel::OptInt(req.virtual_machine_id),
    ]);
    Ok(s)
}

/// The statement that removes the bot `id`.
pub fn delete_bot(id: i32) -> (r: Statement)
    ensures
        r.sql@ == delete_bot_sql(),
        param_views(r.params@) == seq![ParamModel::Int(id)],
{
    let s = Statement { sql: "DELETE FROM orchestrator.bots WHERE id = $1", params: vec![Param::Int(id)] };
    assert(param_views(s.params@) =~= seq![ParamModel::Int(id)]);
    s
}

} // verus!
