use vstd::prelude::*;

verus! {

/// How often a bot runs: a closed set of six cadences.
#[derive(Clone, Copy, Debug, PartialEq, Eq, Structural)]
pub enum Frequencia {
    Diaria,
    Semanal,
    Mensal,
    Trimestral,
    Intervalo,
    Demanda,
}

/// The lowercase name of a cadence, as it travels over the wire and in the store.
pub open spec fn frequency_name(f: Frequencia) -> Seq<char> {
    match f {
        Frequencia::Diaria => "diaria"@,
        Frequencia::Semanal => "semanal"@,
        Frequencia::Mensal => "mensal"@,
        Frequencia::Trimestral => "trimestral"@,
        Frequencia::Intervalo => "intervalo"@,
        Frequencia::Demanda => "demanda"@,
    }
}

/// The cadence whose name is `s`, if `s` is one of the six names.
pub open spec fn frequency_of_name(s: Seq<char>) -> Option<Frequencia> {
    if s == "diaria"@ {
        Some(Frequencia::Diaria)
    } else if s == "semanal"@ {
        Some(Frequencia::Semanal)
    } else if s == "mensal"@ {
        Some(Frequencia::Mensal)
    } else if s == "trimestral"@ {
        Some(Frequencia::Trimestral)
    } else if s == "intervalo"@ {
        Some(Frequencia::Intervalo)
    } else if s == "demanda"@ {
        Some(Frequencia::Demanda)
    } else {
        None
    }
}

impl Frequencia {
    /// The wire name of this cadence.
    pub fn as_str(&self) -> (r: &'static str)
        ensures
            r@ == frequency_name(*self),
    {
        match self {
            Frequencia::Diaria => "diaria",
            Frequencia::Semanal => "semanal",
            Frequencia::Mensal => "mensal",
            Frequencia::Trimestral => "trimestral",
            Frequencia::Intervalo => "intervalo",
            Frequencia::Demanda => "demanda",
        }
    }

    /// Reads a cadence from its wire name; any other text is refused.
    pub fn from_name(s: &str) -> (r: Option<Frequencia>)
        ensures
            r == frequency_of_name(s@),
    {
        let t = s.to_owned();
        if t == "diaria".to_owned() {
            Some(Frequencia::Diaria)
        } else if t == "semanal".to_owned() {
            Some(Frequencia::Semanal)
        } else if t == "mensal".to_owned() {
            Some(Frequencia::Mensal)
        } else if t == "trimestral".to_owned() {
            Some(Frequencia::Trimestral)
        } else if t == "intervalo".to_owned() {
            Some(Frequencia::Intervalo)
        } else if t == "demanda".to_owned() {
            Some(Frequencia::Demanda)
        } else {
            None
        }
    }
}

/// Every cadence name reads back as that cadence, and only the six names read at all.
pub proof fn lemma_frequency_names(f: Frequencia, s: Seq<char>)
    ensures
        frequency_of_name(frequency_name(f)) == Some(f),
        frequency_of_name(s) is Some <==> (s == "diaria"@ || s == "semanal"@ || s == "mensal"@
            || s == "trimestral"@ || s == "intervalo"@ || s == "demanda"@),
{
    reveal_strlit("diaria");
    reveal_strlit("semanal");
    reveal_strlit("mensal");
    reveal_strlit("trimestral");
    reveal_strlit("intervalo");
    reveal_strlit("demanda");
    assert("diaria"@[0] != "semanal"@[0]);
    assert("diaria"@[1] != "mensal"@[1]);
    assert("diaria"@[0] != "trimestral"@[0]);
    assert("diaria"@[0] != "intervalo"@[0]);
    assert("diaria"@[1] != "demanda"@[1]);
    assert("semanal"@[0] != "mensal"@[0]);
    assert("semanal"@[0] != "trimestral"@[0]);
    assert("semanal"@[0] != "intervalo"@[0]);
    assert("semanal"@[0] != "demanda"@[0]);
    assert("mensal"@[0] != "trimestral"@[0]);
    assert("mensal"@[0] != "intervalo"@[0]);
    assert("mensal"@[0] != "demanda"@[0]);
    assert("trimestral"@[0] != "intervalo"@[0]);
    assert("trimestral"@[0] != "demanda"@[0]);
    assert("intervalo"@[0] != "demanda"@[0]);
}

/// The text of an optional string field.
pub open spec fn opt_text(o: Option<String>) -> Option<Seq<char>> {
    match o {
        Some(t) => Some(t@),
        None => None,
    }
}

/// Whether a text holds no character.
pub fn is_blank(s: &String) -> (r: bool)
    ensures
        r == (s@.len() == 0),
{
    let e = String::new();
    let r = *s == e;
    proof {
        if s@.len() == 0 {
            assert(s@ =~= e@);
        }
    }
    r
}

/// A copy of an optional string field.
pub fn copy_opt_text(o: &Option<String>) -> (r: Option<String>)
    ensures
        opt_text(r) == opt_text(*o),
{
    match o {
        Some(t) => Some(t.clone()),
        None => None,
    }
}

/// A stored virtual machine, as plain values.
pub ghost struct VmModel {
    pub id: int,
    pub name: Seq<char>,
    pub ipv4: Option<Seq<char>>,
    pub active: bool,
}

/// A stored bot, as plain values.
pub ghost struct BotModel {
    pub id: int,
    pub name: Seq<char>,
    pub active: bool,
    pub frequency: Frequencia,
    pub day: Option<Seq<char>>,
    pub time: Option<Seq<char>>,
    pub interval: Option<i32>,
    pub tolerance: Option<i32>,
    pub vm_id: int,
}

/// A virtual machine row as the store holds it.
pub struct VirtualMachineRow {
    pub id: i32,
    pub nome_vm: String,
    pub endereco_ipv4_vm: Option<String>,
    pub flg_status_vm: bool,
}

impl View for VirtualMachineRow {
    type V = VmModel;

    open spec fn view(&self) -> VmModel {
        VmModel {
            id: self.id as int,
            name: self.nome_vm@,
            ipv4: opt_text(self.endereco_ipv4_vm),
            active: self.flg_status_vm,
        }
    }
}

impl VirtualMachineRow {
    /// A field-by-field copy of this row.
    pub fn copy(&self) -> (r: VirtualMachineRow)
        ensures
            r@ == self@,
    {
        VirtualMachineRow {
            id: self.id,
            nome_vm: self.nome_vm.clone(),
            endereco_ipv4_vm: copy_opt_text(&self.endereco_ipv4_vm),
            flg_status_vm: self.flg_status_vm,
        }
    }
}

/// The fields a client gives to create a virtual machine; the store assigns the id.
pub struct CreateVirtualMachineReq {
    pub nome_vm: String,
    pub endereco_ipv4_vm: Option<String>,
    pub flg_status_vm: bool,
}

/// The id that the store assigned to a new virtual machine.
pub struct CreateVirtualMachineRow {
    pub id: i32,
}

/// A change to a virtual machine: each field may be left out.
pub struct UpdateVirtualMachineReq {
    pub nome_vm: Option<String>,
    pub endereco_ipv4_vm: Option<String>,
    pub flg_status_vm: Option<bool>,
}

/// A bot row as the store holds it.
pub struct BotsRow {
    pub id: i32,
    pub nome_automacao: String,
    pub flg_status_bot: bool,
    pub frequencia_execucao: Frequencia,
    pub dia_execucao: Option<String>,
    pub hora_execucao: Option<String>,
    pub intervalo_execucao: Option<i32>,
    pub tolerancia_execucao: Option<i32>,
    pub virtual_machine_id: i32,
}

impl View for BotsRow {
    type V = BotModel;

    open spec fn view(&self) -> BotModel {
        BotModel {
            id: self.id as int,
            name: self.nome_automacao@,
            active: self.flg_status_bot,
            frequency: self.frequencia_execucao,
            day: opt_text(self.dia_execucao),
            time: opt_text(self.hora_execucao),
            interval: self.intervalo_execucao,
            tolerance: self.tolerancia_execucao,
            vm_id: self.virtual_machine_id as int,
        }
    }
}

impl BotsRow {
    /// A field-by-field copy of this row.
    pub fn copy(&self) -> (r: BotsRow)
        ensures
            r@ == self@,
    {
        BotsRow {
            id: self.id,
            nome_automacao: self.nome_automacao.clone(),
            flg_status_bot: self.flg_status_bot,
            frequencia_execucao: self.frequencia_execucao,
            dia_execucao: copy_opt_text(&self.dia_execucao),
            hora_execucao: copy_opt_text(&self.hora_execucao),
            intervalo_execucao: self.intervalo_execucao,
            tolerancia_execucao: self.tolerancia_execucao,
            virtual_machine_id: self.virtual_machine_id,
        }
    }
}

/// The fields a client gives to create a bot; the store assigns the id.
pub struct CreateBotReq {
    pub nome_automacao: String,
    pub flg_status_bot: bool,
    pub frequencia_execucao: Frequencia,
    pub dia_execucao: Option<String>,
    pub hora_execucao: Option<String>,
    pub intervalo_execucao: Option<i32>,
    pub tolerancia_execucao: Option<i32>,
    pub virtual_machine_id: i32,
}

/// The id that the store assigned to a new bot.
pub struct CreateBotRow {
    pub id: i32,
}

/// A change to a bot: each field may be left out.
pub struct UpdateBotReq {
    pub nome_automacao: Option<String>,
    pub flg_status_bot: Option<bool>,
    pub frequencia_execucao: Option<Frequencia>,
    pub dia_execucao: Option<String>,
    pub hora_execucao: Option<String>,
    pub intervalo_execucao: Option<i32>,
    pub tolerancia_execucao: Option<i32>,
    pub virtual_machine_id: Option<i32>,
}

/// The row that a create request becomes once the store gives it `id`.
pub open spec fn vm_from_request(req: CreateVirtualMachineReq, id: int) -> VmModel {
    VmModel {
        id,
        name: req.nome_vm@,
        ipv4: opt_text(req.endereco_ipv4_vm),
        active: req.flg_status_vm,
    }
}

/// The row that a create request becomes once the store gives it `id`.
pub open spec fn bot_from_request(req: CreateBotReq, id: int) -> BotModel {
    BotModel {
        id,
        name: req.nome_automacao@,
        active: req.flg_status_bot,
        frequency: req.frequencia_execucao,
        day: opt_text(req.dia_execucao),
        time: opt_text(req.hora_execucao),
        interval: req.intervalo_execucao,
        tolerance: req.tolerancia_execucao,
        vm_id: req.virtual_machine_id as int,
    }
}

/// How an update changes a stored virtual machine. The name and the status are
/// kept where the request leaves them out; the address is optional, so the
/// request's value is written as given, and leaving it out clears it.
pub open spec fn merge_vm(m: VmModel, req: UpdateVirtualMachineReq) -> VmModel {
    VmModel {
        id: m.id,
        name: match req.nome_vm {
            Some(n) => n@,
            None => m.name,
        },
        ipv4: opt_text(req.endereco_ipv4_vm),
        active: match req.flg_status_vm {
            Some(a) => a,
            None => m.active,
        },
    }
}

/// How an update changes a stored bot, by the same rule: the fields that every
/// bot has (name, status, cadence, virtual machine) are kept where the request
/// leaves them out; the optional ones are written as given.
pub open spec fn merge_bot(m: BotModel, req: UpdateBotReq) -> BotModel {
    BotModel {
        id: m.id,
        name: match req.nome_automacao {
            Some(n) => n@,
            None => m.name,
        },
        active: match req.flg_status_bot {
            Some(a) => a,
            None => m.active,
        },
        frequency: match req.frequencia_execucao {
            Some(f) => f,
            None => m.frequency,
        },
        day: opt_text(req.dia_execucao),
        time: opt_text(req.hora_execucao),
        interval: req.intervalo_execucao,
        tolerance: req.tolerancia_execucao,
        vm_id: match req.virtual_machine_id {
            Some(v) => v as int,
            None => m.vm_id,
        },
    }
}

} // verus!
