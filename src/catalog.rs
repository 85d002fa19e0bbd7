use vstd::prelude::*;
use crate::models::{
    bot_from_request, is_blank, merge_bot, merge_vm, vm_from_request, BotModel, BotsRow, CreateBotReq,
    CreateBotRow, CreateVirtualMachineReq, CreateVirtualMachineRow, UpdateBotReq,
    UpdateVirtualMachineReq, VirtualMachineRow, VmModel,
};

verus! {

/// Why the store refused a write.
#[derive(Clone, Copy, Debug, PartialEq, Eq, Structural)]
pub enum StoreError {
    /// A name was given and it is empty.
    EmptyName,
    /// A bot names a virtual machine that does not exist.
    UnknownVirtualMachine,
    /// The virtual machine still has bots that refer to it.
    VirtualMachineInUse,
    /// Every id that fits in an `i32` has been given out.
    IdsExhausted,
}

/// The message that reports a refused write.
pub open spec fn store_error_message(e: StoreError) -> Seq<char> {
    match e {
        StoreError::EmptyName => "name must not be empty"@,
        StoreError::UnknownVirtualMachine => "virtual machine not found"@,
        StoreError::VirtualMachineInUse => "virtual machine is still referenced by bots"@,
        StoreError::IdsExhausted => "no id left to assign"@,
    }
}

/// The HTTP status of a refused write: a malformed request is the client's
/// error, anything the store refuses is a server error.
pub open spec fn store_error_status(e: StoreError) -> u16 {
    match e {
        StoreError::EmptyName => 400,
        _ => 500,
    }
}

impl StoreError {
    /// The message that reports this error.
    pub fn message(&self) -> (r: &'static str)
        ensures
            r@ == store_error_message(*self),
    {
        match self {
            StoreError::EmptyName => "name must not be empty",
            StoreError::UnknownVirtualMachine => "virtual machine not found",
            StoreError::VirtualMachineInUse => "virtual machine is still referenced by bots",
            StoreError::IdsExhausted => "no id left to assign",
        }
    }

    /// The HTTP status that reports this error.
    pub fn status(&self) -> (r: u16)
        ensures
            r == store_error_status(*self),
    {
        match self {
            StoreError::EmptyName => 400,
            _ => 500,
        }
    }
}

/// The rows of a table, as plain values.
pub open spec fn vm_views(v: Seq<VirtualMachineRow>) -> Seq<VmModel> {
    v.map_values(|r: VirtualMachineRow| r@)
}

/// The rows of a table, as plain values.
pub open spec fn bot_views(v: Seq<BotsRow>) -> Seq<BotModel> {
    v.map_values(|r: BotsRow| r@)
}

/// A virtual machine with this id is stored.
pub open spec fn has_vm(vms: Seq<VmModel>, id: int) -> bool {
    exists|i: int| 0 <= i < vms.len() && #[trigger] vms[i].id == id
}

/// A bot with this id is stored.
pub open spec fn has_bot(bots: Seq<BotModel>, id: int) -> bool {
    exists|i: int| 0 <= i < bots.len() && #[trigger] bots[i].id == id
}

/// Some stored bot runs on the virtual machine `vm_id`.
pub open spec fn vm_in_use(bots: Seq<BotModel>, vm_id: int) -> bool {
    exists|i: int| 0 <= i < bots.len() && #[trigger] bots[i].vm_id == vm_id
}

/// The ids are positive, at most `last`, and strictly ascending.
pub open spec fn vm_ids_ascending(vms: Seq<VmModel>, last: int) -> bool {
    &&& forall|i: int| 0 <= i < vms.len() ==> 0 < #[trigger] vms[i].id <= last
    &&& forall|i: int, j: int| 0 <= i < j < vms.len() ==> #[trigger] vms[i].id < #[trigger] vms[j].id
}

/// The ids are positive, at most `last`, and strictly ascending.
pub open spec fn bot_ids_ascending(bots: Seq<BotModel>, last: int) -> bool {
    &&& forall|i: int| 0 <= i < bots.len() ==> 0 < #[trigger] bots[i].id <= last
    &&& forall|i: int, j: int| 0 <= i < j < bots.len() ==> #[trigger] bots[i].id < #[trigger] bots[j].id
}

/// Every bot refers to a stored virtual machine.
pub open spec fn references_hold(vms: Seq<VmModel>, bots: Seq<BotModel>) -> bool {
    forall|i: int| 0 <= i < bots.len() ==> has_vm(vms, #[trigger] bots[i].vm_id)
}

/// A name that is given must not be empty.
pub open spec fn empty_name_given(name: Option<String>) -> bool {
    match name {
        Some(n) => n@.len() == 0,
        None => false,
    }
}

/// The two tables of the catalog and the last id each has given out. Ids are
/// never reused: a new row always gets an id above every id given before.
pub struct Catalog {
    vms: Vec<VirtualMachineRow>,
    bots: Vec<BotsRow>,
    last_vm_id: i32,
    last_bot_id: i32,
}

impl Catalog {
    /// The virtual machines, in ascending id order.
    pub closed spec fn vm_rows(&self) -> Seq<VmModel> {
        vm_views(self.vms@)
    }

    /// The bots, in ascending id order.
    pub closed spec fn bot_rows(&self) -> Seq<BotModel> {
        bot_views(self.bots@)
    }

    /// The largest virtual machine id ever given out (0 before the first).
    pub closed spec fn last_vm(&self) -> int {
        self.last_vm_id as int
    }

    /// The largest bot id ever given out (0 before the first).
    pub closed spec fn last_bot(&self) -> int {
        self.last_bot_id as int
    }

    /// The catalog's invariant: ids ascend and stay within what was given out,
    /// and every bot refers to a stored virtual machine.
    pub open spec fn wf(&self) -> bool {
        &&& self.last_vm() >= 0
        &&& self.last_bot() >= 0
        &&& vm_ids_ascending(self.vm_rows(), self.last_vm())
        &&& bot_ids_ascending(self.bot_rows(), self.last_bot())
        &&& references_hold(self.vm_rows(), self.bot_rows())
    }

    /// Both catalogs hold the same rows and have given out the same ids.
    pub open spec fn same_as(&self, other: &Catalog) -> bool {
        &&& self.vm_rows() == other.vm_rows()
        &&& self.bot_rows() == other.bot_rows()
        &&& self.last_vm() == other.last_vm()
        &&& self.last_bot() == other.last_bot()
    }

    /// `after` is `before` with one new virtual machine, made from `req`, under the new id `id`.
    pub open spec fn vm_created(before: &Catalog, after: &Catalog, req: CreateVirtualMachineReq, id: int) -> bool {
        &&& id == before.last_vm() + 1
        &&& after.last_vm() == id
        &&& after.vm_rows() == before.vm_rows().push(vm_from_request(req, id))
        &&& after.bot_rows() == before.bot_rows()
        &&& after.last_bot() == before.last_bot()
    }

    /// `after` is `before` with the virtual machine `id`, if stored, changed by
    /// `req`; `n` counts the rows changed.
    pub open spec fn vm_updated(before: &Catalog, after: &Catalog, id: int, req: UpdateVirtualMachineReq, n: int) -> bool {
        &&& after.vm_rows() == before.vm_rows().map_values(
            |m: VmModel| if m.id == id { merge_vm(m, req) } else { m },
        )
        &&& n == if has_vm(before.vm_rows(), id) { 1int } else { 0int }
        &&& after.bot_rows() == before.bot_rows()
        &&& after.last_vm() == before.last_vm()
        &&& after.last_bot() == before.last_bot()
    }

    /// `after` is `before` without the virtual machine `id`, if it was stored;
    /// `n` counts the rows removed.
    pub open spec fn vm_deleted(before: &Catalog, after: &Catalog, id: int, n: int) -> bool {
        &&& has_vm(before.vm_rows(), id) ==> n == 1 && exists|i: int|
            0 <= i < before.vm_rows().len() && #[trigger] before.vm_rows()[i].id == id
                && after.vm_rows() == before.vm_rows().remove(i)
        &&& !has_vm(before.vm_rows(), id) ==> n == 0 && after.vm_rows() == before.vm_rows()
        &&& after.bot_rows() == before.bot_rows()
        &&& after.last_vm() == before.last_vm()
        &&& after.last_bot() == before.last_bot()
    }

    /// `after` is `before` with one new bot, made from `req`, under the new id `id`.
    pub open spec fn bot_created(before: &Catalog, after: &Catalog, req: CreateBotReq, id: int) -> bool {
        &&& id == before.last_bot() + 1
        &&& after.last_bot() == id
        &&& after.bot_rows() == before.bot_rows().push(bot_from_request(req, id))
        &&& after.vm_rows() == before.vm_rows()
        &&& after.last_vm() == before.last_vm()
    }

    /// `after` is `before` with the bot `id`, if stored, changed by `req`;
    /// `n` counts the rows changed.
    pub open spec fn bot_updated(before: &Catalog, after: &Catalog, id: int, req: UpdateBotReq, n: int) -> bool {
        &&& after.bot_rows() == before.bot_rows().map_values(
            |m: BotModel| if m.id == id { merge_bot(m, req) } else { m },
        )
        &&& n == if has_bot(before.bot_rows(), id) { 1int } else { 0int }
        &&& after.vm_rows() == before.vm_rows()
        &&& after.last_vm() == before.last_vm()
        &&& after.last_bot() == before.last_bot()
    }

    /// `after` is `before` without the bot `id`, if it was stored; `n` counts
    /// the rows removed.
    pub open spec fn bot_deleted(before: &Catalog, after: &Catalog, id: int, n: int) -> bool {
        &&& has_bot(before.bot_rows(), id) ==> n == 1 && exists|i: int|
            0 <= i < before.bot_rows().len() && #[trigger] before.bot_rows()[i].id == id
                && after.bot_rows() == before.bot_rows().remove(i)
        &&& !has_bot(before.bot_rows(), id) ==> n == 0 && after.bot_rows() == before.bot_rows()
        &&& after.vm_rows() == before.vm_rows()
        &&& after.last_vm() == before.last_vm()
        &&& after.last_bot() == before.last_bot()
    }

    /// An empty catalog.
    pub fn new() -> (r: Catalog)
        ensures
            r.wf(),
            r.vm_rows().len() == 0,
            r.bot_rows().len() == 0,
            r.last_vm() == 0,
            r.last_bot() == 0,
    {
        Catalog { vms: Vec::new(), bots: Vec::new(), last_vm_id: 0, last_bot_id: 0 }
    }

    /// All virtual machines, ordered by ascending id.
    pub fn list_vms(&self) -> (r: Vec<VirtualMachineRow>)
        requires
            self.wf(),
        ensures
            vm_views(r@) == self.vm_rows(),
    {
        let mut out: Vec<VirtualMachineRow> = Vec::new();
        let n = self.vms.len();
        for i in 0..n
            invariant
                n == self.vms@.len(),
                out@.len() == i,
                forall|k: int| 0 <= k < i ==> #[trigger] out@[k]@ == self.vms@[k]@,
        {
            out.push(self.vms[i].copy());
        }
        assert(vm_views(out@) =~= vm_views(self.vms@));
        out
    }

    /// Stores a new virtual machine and returns the id given to it.
    pub fn create_vm(&mut self, req: CreateVirtualMachineReq) -> (r: Result<CreateVirtualMachineRow, StoreError>)
        requires
            old(self).wf(),
        ensures
            final(self).wf(),
            req.nome_vm@.len() == 0 ==> r == Err::<CreateVirtualMachineRow, StoreError>(StoreError::EmptyName),
            req.nome_vm@.len() > 0 && old(self).last_vm() == i32::MAX ==> r == Err::<CreateVirtualMachineRow, StoreError>(StoreError::IdsExhausted),
            req.nome_vm@.len() > 0 && old(self).last_vm() < i32::MAX ==> r is Ok,
            match r {
                Ok(row) => Catalog::vm_created(old(self), final(self), req, row.id as int)
                    && has_vm(final(self).vm_rows(), row.id as int),
                Err(_) => final(self).same_as(old(self)),
            },
    {
        if is_blank(&req.nome_vm) {
            return Err(StoreError::EmptyName);
        }
        if self.last_vm_id == i32::MAX {
            return Err(StoreError::IdsExhausted);
        }
        let id = self.last_vm_id + 1;
        let ghost before = self.vm_rows();
        let row = VirtualMachineRow {
            id,
            nome_vm: req.nome_vm,
            endereco_ipv4_vm: req.endereco_ipv4_vm,
            flg_status_vm: req.flg_status_vm,
        };
        self.vms.push(row);
        self.last_vm_id = id;
        assert(self.vm_rows() =~= before.push(vm_from_request(req, id as int)));
        assert(self.vm_rows()[before.len() as int].id == id);
        assert forall|i: int| 0 <= i < self.bot_rows().len() implies has_vm(self.vm_rows(), #[trigger] self.bot_rows()[i].vm_id) by {
            let j = choose|j: int| 0 <= j < before.len() && #[trigger] before[j].id == self.bot_rows()[i].vm_id;
            assert(self.vm_rows()[j] == before[j]);
        }
        Ok(CreateVirtualMachineRow { id })
    }

    /// The position of the virtual machine `id`, if it is stored.
    fn find_vm(&self, id: i32) -> (r: Option<usize>)
        requires
            self.wf(),
        ensures
            match r {
                Some(i) => i < self.vm_rows().len() && self.vm_rows()[i as int].id == id,
                None => !has_vm(self.vm_rows(), id as int),
            },
    {
        let n = self.vms.len();
        for i in 0..n
            invariant
                n == self.vms@.len(),
                forall|k: int| 0 <= k < i ==> #[trigger] self.vms@[k].id != id,
        {
            if self.vms[i].id == id {
                return Some(i);
            }
        }
        proof {
            assert forall|k: int| 0 <= k < self.vm_rows().len() implies #[trigger] self.vm_rows()[k].id != id by {
                assert(self.vms@[k].id != id);
            }
        }
        None
    }

    /// Whether some bot runs on the virtual machine `vm_id`.
    fn has_bots_on(&self, vm_id: i32) -> (r: bool)
        ensures
            r == vm_in_use(self.bot_rows(), vm_id as int),
    {
        let n = self.bots.len();
        for i in 0..n
            invariant
                n == self.bots@.len(),
                forall|k: int| 0 <= k < i ==> #[trigger] self.bots@[k].virtual_machine_id != vm_id,
        {
            if self.bots[i].virtual_machine_id == vm_id {
                assert(self.bot_rows()[i as int].vm_id == vm_id);
                return true;
            }
        }
        proof {
            assert forall|k: int| 0 <= k < self.bot_rows().len() implies #[trigger] self.bot_rows()[k].vm_id != vm_id by {
                assert(self.bots@[k].virtual_machine_id != vm_id);
            }
        }
        false
    }

    /// Changes the virtual machine `id` as `req` says (see `merge_vm`) and
    /// returns how many rows changed: none where no such machine is stored.
    pub fn update_vm(&mut self, id: i32, req: UpdateVirtualMachineReq) -> (r: Result<usize, StoreError>)
        requires
            old(self).wf(),
        ensures
            final(self).wf(),
            empty_name_given(req.nome_vm) ==> r == Err::<usize, StoreError>(StoreError::EmptyName),
            match r {
                Ok(n) => Catalog::vm_updated(old(self), final(self), id as int, req, n as int),
                Err(_) => empty_name_given(req.nome_vm) && final(self).same_as(old(self)),
            },
    {
        let given_blank = match &req.nome_vm {
            Some(t) => is_blank(t),
            None => false,
        };
        if given_blank {
            return Err(StoreError::EmptyName);
        }
        let ghost before = self.vm_rows();
        match self.find_vm(id) {
            None => {
                assert(before.map_values(|m: VmModel| if m.id == id { merge_vm(m, req) } else { m }) =~= before);
                Ok(0)
            },
            Some(i) => {
                let ghost old_row = self.vms@[i as int];
                let name = match req.nome_vm {
                    Some(t) => t,
                    None => self.vms[i].nome_vm.clone(),
                };
                let active = match req.flg_status_vm {
                    Some(a) => a,
                    None => self.vms[i].flg_status_vm,
                };
                let row = VirtualMachineRow {
                    id,
                    nome_vm: name,
                    endereco_ipv4_vm: req.endereco_ipv4_vm,
                    flg_status_vm: active,
                };
                assert(row@ == merge_vm(old_row@, req));
                self.vms.set(i, row);
                assert(self.vm_rows() =~= before.map_values(
                    |m: VmModel| if m.id == id { merge_vm(m, req) } else { m },
                ));
                assert forall|k: int| 0 <= k < self.bot_rows().len() implies has_vm(self.vm_rows(), #[trigger] self.bot_rows()[k].vm_id) by {
                    let j = choose|j: int| 0 <= j < before.len() && #[trigger] before[j].id == self.bot_rows()[k].vm_id;
                    assert(self.vm_rows()[j].id == before[j].id);
                }
                Ok(1)
            },
        }
    }

    /// Removes the virtual machine `id` and returns how many rows went: none
    /// where no such machine is stored. A machine that bots still run on is
    /// kept, and the call fails.
    pub fn delete_vm(&mut self, id: i32) -> (r: Result<usize, StoreError>)
        requires
            old(self).wf(),
        ensures
            final(self).wf(),
            vm_in_use(old(self).bot_rows(), id as int) <==> r is Err,
            match r {
                Ok(n) => Catalog::vm_deleted(old(self), final(self), id as int, n as int),
                Err(e) => e == StoreError::VirtualMachineInUse && final(self).same_as(old(self)),
            },
    {
        if self.has_bots_on(id) {
            return Err(StoreError::VirtualMachineInUse);
        }
        let ghost before = self.vm_rows();
        match self.find_vm(id) {
            None => Ok(0),
            Some(i) => {
                self.vms.remove(i);
                assert(self.vm_rows() =~= before.remove(i as int));
                assert forall|k: int| 0 <= k < self.bot_rows().len() implies has_vm(self.vm_rows(), #[trigger] self.bot_rows()[k].vm_id) by {
                    let v = self.bot_rows()[k].vm_id;
                    let j = choose|j: int| 0 <= j < before.len() && #[trigger] before[j].id == v;
                    assert(v != id);
                    if j < i {
                        assert(self.vm_rows()[j].id == v);
                    } else {
                        assert(self.vm_rows()[j - 1].id == v);
                    }
                }
                Ok(1)
            },
        }
    }
}

impl Catalog {
    /// All bots, ordered by ascending id.
    pub fn list_bots(&self) -> (r: Vec<BotsRow>)
        requires
            self.wf(),
        ensures
            bot_views(r@) == self.bot_rows(),
    {
        let mut out: Vec<BotsRow> = Vec::new();
        let n = self.bots.len();
        for i in 0..n
            invariant
                n == self.bots@.len(),
                out@.len() == i,
                forall|k: int| 0 <= k < i ==> #[trigger] out@[k]@ == self.bots@[k]@,
        {
            out.push(self.bots[i].copy());
        }
        assert(bot_views(out@) =~= bot_views(self.bots@));
        out
    }

    /// Stores a new bot and returns the id given to it. The bot must run on a
    /// stored virtual machine.
    pub fn create_bot(&mut self, req: CreateBotReq) -> (r: Result<CreateBotRow, StoreError>)
        requires
            old(self).wf(),
        ensures
            final(self).wf(),
            req.nome_automacao@.len() == 0 ==> r == Err::<CreateBotRow, StoreError>(StoreError::EmptyName),
            req.nome_automacao@.len() > 0 && !has_vm(old(self).vm_rows(), req.virtual_machine_id as int)
                ==> r == Err::<CreateBotRow, StoreError>(StoreError::UnknownVirtualMachine),
            req.nome_automacao@.len() > 0 && has_vm(old(self).vm_rows(), req.virtual_machine_id as int)
                && old(self).last_bot() == i32::MAX ==> r == Err::<CreateBotRow, StoreError>(StoreError::IdsExhausted),
            req.nome_automacao@.len() > 0 && has_vm(old(self).vm_rows(), req.virtual_machine_id as int)
                && old(self).last_bot() < i32::MAX ==> r is Ok,
            match r {
                Ok(row) => Catalog::bot_created(old(self), final(self), req, row.id as int)
                    && has_bot(final(self).bot_rows(), row.id as int),
                Err(_) => final(self).same_as(old(self)),
            },
    {
        if is_blank(&req.nome_automacao) {
            return Err(StoreError::EmptyName);
        }
        if self.find_vm(req.virtual_machine_id).is_none() {
            return Err(StoreError::UnknownVirtualMachine);
        }
        if self.last_bot_id == i32::MAX {
            return Err(StoreError::IdsExhausted);
        }
        let id = self.last_bot_id + 1;
        let ghost before = self.bot_rows();
        let row = BotsRow {
            id,
            nome_automacao: req.nome_automacao,
            flg_status_bot: req.flg_status_bot,
            frequencia_execucao: req.frequencia_execucao,
            dia_execucao: req.dia_execucao,
            hora_execucao: req.hora_execucao,
            intervalo_execucao: req.intervalo_execucao,
            tolerancia_execucao: req.tolerancia_execucao,
            virtual_machine_id: req.virtual_machine_id,
        };
        self.bots.push(row);
        self.last_bot_id = id;
        assert(self.bot_rows() =~= before.push(bot_from_request(req, id as int)));
        assert(self.bot_rows()[before.len() as int].id == id);
        assert forall|k: int| 0 <= k < self.bot_rows().len() implies has_vm(self.vm_rows(), #[trigger] self.bot_rows()[k].vm_id) by {
            if k < before.len() {
                assert(self.bot_rows()[k] == before[k]);
            }
        }
        Ok(CreateBotRow { id })
    }

    /// The position of the bot `id`, if it is stored.
    fn find_bot(&self, id: i32) -> (r: Option<usize>)
        requires
            self.wf(),
        ensures
            match r {
                Some(i) => i < self.bot_rows().len() && self.bot_rows()[i as int].id == id,
                None => !has_bot(self.bot_rows(), id as int),
            },
    {
        let n = self.bots.len();
        for i in 0..n
            invariant
                n == self.bots@.len(),
                forall|k: int| 0 <= k < i ==> #[trigger] self.bots@[k].id != id,
        {
            if self.bots[i].id == id {
                return Some(i);
            }
        }
        proof {
            assert forall|k: int| 0 <= k < self.bot_rows().len() implies #[trigger] self.bot_rows()[k].id != id by {
                assert(self.bots@[k].id != id);
            }
        }
        None
    }

    /// Changes the bot `id` as `req` says (see `merge_bot`) and returns how
    /// many rows changed: none where no such bot is stored. A virtual machine
    /// that is named must be stored.
    pub fn update_bot(&mut self, id: i32, req: UpdateBotReq) -> (r: Result<usize, StoreError>)
        requires
            old(self).wf(),
        ensures
            final(self).wf(),
            empty_name_given(req.nome_automacao) ==> r == Err::<usize, StoreError>(StoreError::EmptyName),
            !empty_name_given(req.nome_automacao) && (match req.virtual_machine_id {
                Some(v) => !has_vm(old(self).vm_rows(), v as int),
                None => false,
            }) ==> r == Err::<usize, StoreError>(StoreError::UnknownVirtualMachine),
            match r {
                Ok(n) => Catalog::bot_updated(old(self), final(self), id as int, req, n as int),
                Err(_) => final(self).same_as(old(self)) && (empty_name_given(req.nome_automacao)
                    || (match req.virtual_machine_id {
                    Some(v) => !has_vm(old(self).vm_rows(), v as int),
                    None => false,
                })),
            },
    {
        let given_blank = match &req.nome_automacao {
            Some(t) => is_blank(t),
            None => false,
        };
        if given_blank {
            return Err(StoreError::EmptyName);
        }
        match req.virtual_machine_id {
            Some(v) => {
                if self.find_vm(v).is_none() {
                    return Err(StoreError::UnknownVirtualMachine);
                }
            },
            None => {},
        }
        let ghost before = self.bot_rows();
        match self.find_bot(id) {
            None => {
                assert(before.map_values(|m: BotModel| if m.id == id { merge_bot(m, req) } else { m }) =~= before);
                Ok(0)
            },
            Some(i) => {
                let ghost old_row = self.bots@[i as int];
                let name = match req.nome_automacao {
                    Some(t) => t,
                    None => self.bots[i].nome_automacao.clone(),
                };
                let active = match req.flg_status_bot {
                    Some(a) => a,
                    None => self.bots[i].flg_status_bot,
                };
                let frequency = match req.frequencia_execucao {
                    Some(f) => f,
                    None => self.bots[i].frequencia_execucao,
                };
                let vm_id = match req.virtual_machine_id {
                    Some(v) => v,
                    None => self.bots[i].virtual_machine_id,
                };
                let row = BotsRow {
                    id,
                    nome_automacao: name,
                    flg_status_bot: active,
                    frequencia_execucao: frequency,
                    dia_execucao: req.dia_execucao,
                    hora_execucao: req.hora_execucao,
                    intervalo_execucao: req.intervalo_execucao,
                    tolerancia_execucao: req.tolerancia_execucao,
                    virtual_machine_id: vm_id,
                };
                assert(row@ == merge_bot(old_row@, req));
                self.bots.set(i, row);
                assert(self.bot_rows() =~= before.map_values(
                    |m: BotModel| if m.id == id { merge_bot(m, req) } else { m },
                ));
                assert forall|k: int| 0 <= k < self.bot_rows().len() implies has_vm(self.vm_rows(), #[trigger] self.bot_rows()[k].vm_id) by {
                    if k != i {
                        assert(self.bot_rows()[k] == before[k]);
                    }
                }
                Ok(1)
            },
        }
    }

    /// Removes the bot `id` and returns how many rows went: none where no such
    /// bot is stored.
    pub fn delete_bot(&mut self, id: i32) -> (r: usize)
        requires
            old(self).wf(),
        ensures
            final(self).wf(),
            Catalog::bot_deleted(old(self), final(self), id as int, r as int),
    {
        let ghost before = self.bot_rows();
        match self.find_bot(id) {
            None => 0,
            Some(i) => {
                self.bots.remove(i);
                assert(self.bot_rows() =~= before.remove(i as int));
                assert forall|k: int| 0 <= k < self.bot_rows().len() implies has_vm(self.vm_rows(), #[trigger] self.bot_rows()[k].vm_id) by {
                    if k < i {
                        assert(self.bot_rows()[k] == before[k]);
                    } else {
                        assert(self.bot_rows()[k] == before[k + 1]);
                    }
                }
                1
            },
        }
    }
}

/// A virtual machine created in a well-formed catalog gets a positive id that
/// is above every id given out before, so never one already issued, and the
/// catalog then lists a row with that id and the fields of the request.
pub proof fn lemma_created_vm_is_new_and_listed(
    before: Catalog,
    after: Catalog,
    req: CreateVirtualMachineReq,
    id: int,
)
    requires
        before.wf(),
        Catalog::vm_created(&before, &after, req, id),
    ensures
        id > 0,
        id > before.last_vm(),
        forall|i: int| 0 <= i < before.vm_rows().len() ==> #[trigger] before.vm_rows()[i].id < id,
        exists|i: int| 0 <= i < after.vm_rows().len() && #[trigger] after.vm_rows()[i] == vm_from_request(req, id),
{
    let i = before.vm_rows().len() as int;
    assert(after.vm_rows()[i] == vm_from_request(req, id));
}

/// A bot created in a well-formed catalog gets a positive id above every id
/// given out before, and the catalog then lists it.
pub proof fn lemma_created_bot_is_new_and_listed(before: Catalog, after: Catalog, req: CreateBotReq, id: int)
    requires
        before.wf(),
        Catalog::bot_created(&before, &after, req, id),
    ensures
        id > 0,
        id > before.last_bot(),
        forall|i: int| 0 <= i < before.bot_rows().len() ==> #[trigger] before.bot_rows()[i].id < id,
        exists|i: int| 0 <= i < after.bot_rows().len() && #[trigger] after.bot_rows()[i] == bot_from_request(req, id),
{
    let i = before.bot_rows().len() as int;
    assert(after.bot_rows()[i] == bot_from_request(req, id));
}

/// Deleting a virtual machine twice: once the first call has gone through,
/// the second one succeeds as well, removes nothing and leaves the catalog as
/// it was.
pub proof fn lemma_delete_vm_twice(a: Catalog, b: Catalog, c: Catalog, id: int, n1: int, n2: int)
    requires
        a.wf(),
        !vm_in_use(a.bot_rows(), id),
        Catalog::vm_deleted(&a, &b, id, n1),
        Catalog::vm_deleted(&b, &c, id, n2),
    ensures
        !vm_in_use(b.bot_rows(), id),
        !has_vm(b.vm_rows(), id),
        n2 == 0,
        c.same_as(&b),
{
    if has_vm(a.vm_rows(), id) {
        let i = choose|i: int|
            0 <= i < a.vm_rows().len() && #[trigger] a.vm_rows()[i].id == id
                && b.vm_rows() == a.vm_rows().remove(i);
        assert forall|k: int| 0 <= k < b.vm_rows().len() implies #[trigger] b.vm_rows()[k].id != id by {
            if k < i {
                assert(b.vm_rows()[k] == a.vm_rows()[k]);
            } else {
                assert(b.vm_rows()[k] == a.vm_rows()[k + 1]);
            }
        }
    }
}

/// Deleting a bot twice: the second call removes nothing and leaves the
/// catalog as it was.
pub proof fn lemma_delete_bot_twice(a: Catalog, b: Catalog, c: Catalog, id: int, n1: int, n2: int)
    requires
        a.wf(),
        Catalog::bot_deleted(&a, &b, id, n1),
        Catalog::bot_deleted(&b, &c, id, n2),
    ensures
        !has_bot(b.bot_rows(), id),
        n2 == 0,
        c.same_as(&b),
{
    if has_bot(a.bot_rows(), id) {
        let i = choose|i: int|
            0 <= i < a.bot_rows().len() && #[trigger] a.bot_rows()[i].id == id
                && b.bot_rows() == a.bot_rows().remove(i);
        assert forall|k: int| 0 <= k < b.bot_rows().len() implies #[trigger] b.bot_rows()[k].id != id by {
            if k < i {
                assert(b.bot_rows()[k] == a.bot_rows()[k]);
            } else {
                assert(b.bot_rows()[k] == a.bot_rows()[k + 1]);
            }
        }
    }
}

} // verus!
