use vstd::prelude::*;
use crate::catalog::{
    has_vm, store_error_message, store_error_status, vm_in_use, Catalog, StoreError,
};
use crate::envelope::{
    bot_items, bots_body, created_body, created_json, error_body, error_json, list_json, ok_body,
    ok_json, vm_items, vms_body,
};
use crate::models::{CreateBotReq, CreateVirtualMachineReq, UpdateBotReq, UpdateVirtualMachineReq};

verus! {

/// The status and body that report a refused write.
pub open spec fn refusal(e: StoreError) -> (u16, Seq<char>) {
    (store_error_status(e), error_json(store_error_message(e)))
}

/// The status and body of a response, as plain values.
pub open spec fn response_view(r: (u16, String)) -> (u16, Seq<char>) {
    (r.0, r.1@)
}

fn refuse(e: StoreError) -> (r: (u16, String))
    ensures
        response_view(r) == refusal(e),
{
    (e.status(), error_body(e.message()))
}

/// The response to a failure of the store itself, carrying its message.
pub fn store_failure(message: &str) -> (r: (u16, String))
    ensures
        r.0 == 500,
        r.1@ == error_json(message@),
{
    (500, error_body(message))
}

/// The response that lists the virtual machines.
pub fn get_vms(c: &Catalog) -> (r: (u16, String))
    requires
        c.wf(),
    ensures
        r.0 == 200,
        r.1@ == list_json(vm_items(c.vm_rows())),
{
    let rows = c.list_vms();
    (200, vms_body(&rows))
}

/// Creates a virtual machine and answers 201 with its id, or reports why not.
pub fn create_vm(c: &mut Catalog, req: CreateVirtualMachineReq) -> (r: (u16, String))
    requires
        old(c).wf(),
    ensures
        final(c).wf(),
        req.nome_vm@.len() == 0 ==> response_view(r) == refusal(StoreError::EmptyName)
            && final(c).same_as(old(c)),
        req.nome_vm@.len() > 0 && old(c).last_vm() == i32::MAX ==> response_view(r) == refusal(
            StoreError::IdsExhausted,
        ) && final(c).same_as(old(c)),
        req.nome_vm@.len() > 0 && old(c).last_vm() < i32::MAX ==> r.0 == 201 && r.1@ == created_json(
            old(c).last_vm() + 1,
        ) && Catalog::vm_created(old(c), final(c), req, old(c).last_vm() + 1),
{
    match c.create_vm(req) {
        Ok(row) => (201, created_body(row.id)),
        Err(e) => refuse(e),
    }
}

/// Changes a virtual machine and answers 200, or reports why not. An id that
/// names no machine changes nothing and is answered 200 as well.
pub fn update_vm(c: &mut Catalog, id: i32, req: UpdateVirtualMachineReq) -> (r: (u16, String))
    requires
        old(c).wf(),
    ensures
        final(c).wf(),
        crate::catalog::empty_name_given(req.nome_vm) ==> response_view(r) == refusal(StoreError::EmptyName)
            && final(c).same_as(old(c)),
        !crate::catalog::empty_name_given(req.nome_vm) ==> r.0 == 200 && r.1@ == ok_json()
            && Catalog::vm_updated(old(c), final(c), id as int, req, if has_vm(old(c).vm_rows(), id as int) { 1 } else { 0 }),
{
    match c.update_vm(id, req) {
        Ok(_) => (200, ok_body()),
        Err(e) => refuse(e),
    }
}

/// Removes a virtual machine and answers 200, or reports that bots still
/// refer to it. An id that names no machine is answered 200 as well.
pub fn delete_vm(c: &mut Catalog, id: i32) -> (r: (u16, String))
    requires
        old(c).wf(),
    ensures
        final(c).wf(),
        vm_in_use(old(c).bot_rows(), id as int) ==> response_view(r) == refusal(StoreError::VirtualMachineInUse)
            && final(c).same_as(old(c)),
        !vm_in_use(old(c).bot_rows(), id as int) ==> r.0 == 200 && r.1@ == ok_json()
            && Catalog::vm_deleted(old(c), final(c), id as int, if has_vm(old(c).vm_rows(), id as int) { 1 } else { 0 }),
{
    match c.delete_vm(id) {
        Ok(_) => (200, ok_body()),
        Err(e) => refuse(e),
    }
}

/// The response that lists the bots.
pub fn get_bots(c: &Catalog) -> (r: (u16, String))
    requires
        c.wf(),
    ensures
        r.0 == 200,
        r.1@ == list_json(bot_items(c.bot_rows())),
{
    let rows = c.list_bots();
    (200, bots_body(&rows))
}

/// Creates a bot and answers 201 with its id, or reports why not.
pub fn create_bot(c: &mut Catalog, req: CreateBotReq) -> (r: (u16, String))
    requires
        old(c).wf(),
    ensures
        final(c).wf(),
        req.nome_automacao@.len() == 0 ==> response_view(r) == refusal(StoreError::EmptyName)
            && final(c).same_as(old(c)),
        req.nome_automacao@.len() > 0 && !has_vm(old(c).vm_rows(), req.virtual_machine_id as int)
            ==> response_view(r) == refusal(StoreError::UnknownVirtualMachine) && final(c).same_as(old(c)),
        req.nome_automacao@.len() > 0 && has_vm(old(c).vm_rows(), req.virtual_machine_id as int)
            && old(c).last_bot() == i32::MAX ==> response_view(r) == refusal(StoreError::IdsExhausted)
            && final(c).same_as(old(c)),
        req.nome_automacao@.len() > 0 && has_vm(old(c).vm_rows(), req.virtual_machine_id as int)
            && old(c).last_bot() < i32::MAX ==> r.0 == 201 && r.1@ == created_json(old(c).last_bot() + 1)
            && Catalog::bot_created(old(c), final(c), req, old(c).last_bot() + 1),
{
    match c.create_bot(req) {
        Ok(row) => (201, created_body(row.id)),
        Err(e) => refuse(e),
    }
}

/// Changes a bot and answers 200, or reports why not. An id that names no bot
/// changes nothing and is answered 200 as well.
pub fn update_bot(c: &mut Catalog, id: i32, req: UpdateBotReq) -> (r: (u16, String))
    requires
        old(c).wf(),
    ensures
        final(c).wf(),
        crate::catalog::empty_name_given(req.nome_automacao) ==> response_view(r) == refusal(StoreError::EmptyName)
            && final(c).same_as(old(c)),
        !crate::catalog::empty_name_given(req.nome_automacao) && (match req.virtual_machine_id {
            Some(v) => !has_vm(old(c).vm_rows(), v as int),
            None => false,
        }) ==> response_view(r) == refusal(StoreError::UnknownVirtualMachine) && final(c).same_as(old(c)),
        !crate::catalog::empty_name_given(req.nome_automacao) && (match req.virtual_machine_id {
            Some(v) => has_vm(old(c).vm_rows(), v as int),
            None => true,
        }) ==> r.0 == 200 && r.1@ == ok_json() && Catalog::bot_updated(old(c), final(c), id as int, req,
            if crate::catalog::has_bot(old(c).bot_rows(), id as int) { 1 } else { 0 }),
{
    match c.update_bot(id, req) {
        Ok(_) => (200, ok_body()),
        Err(e) => refuse(e),
    }
}

/// Removes a bot and answers 200; an id that names no bot is answered 200 as well.
pub fn delete_bot(c: &mut Catalog, id: i32) -> (r: (u16, String))
    requires
        old(c).wf(),
    ensures
        final(c).wf(),
        r.0 == 200,
        r.1@ == ok_json(),
        Catalog::bot_deleted(old(c), final(c), id as int, if crate::catalog::has_bot(old(c).bot_rows(), id as int) { 1 } else { 0 }),
{
    let _ = c.delete_bot(id);
    (200, ok_body())
}

} // verus!
