use vstd::prelude::*;
use crate::models::{
    frequency_name, BotModel, BotsRow, VirtualMachineRow, VmModel,
};
use crate::catalog::{bot_views, vm_views};

verus! {

/// The JSON string literal that serde_json writes for the text `s`: quoted,
/// with the characters that JSON reserves escaped.
pub uninterp spec fn json_text(s: Seq<char>) -> Seq<char>;

/// Relies on serde_json::to_string on a `str`: it writes the text as a quoted
/// and escaped JSON string. Writing into memory cannot fail, so the error arm
/// is never taken.
#[verifier::external_body]
fn quote(s: &str) -> (r: String)
    ensures
        r@ == json_text(s@),
{
    match serde_json::to_string(s) {
        Ok(t) => t,
        Err(_) => String::new(),
    }
}

/// The character of a decimal digit.
pub open spec fn digit_char(d: int) -> char {
    seq!['0', '1', '2', '3', '4', '5', '6', '7', '8', '9'][d]
}

/// The decimal digits of `n`, most significant first, without leading zeros.
pub open spec fn nat_digits(n: nat) -> Seq<char>
    decreases n,
{
    if n < 10 {
        seq![digit_char(n as int)]
    } else {
        nat_digits(n / 10) + seq![digit_char((n % 10) as int)]
    }
}

/// An integer in decimal, with a leading minus sign where it is negative.
pub open spec fn decimal_text(v: int) -> Seq<char> {
    if v < 0 {
        seq!['-'] + nat_digits((-v) as nat)
    } else {
        nat_digits(v as nat)
    }
}

/// Relies on serde_json::to_string on an `i32`: it writes the number in
/// decimal. Writing into memory cannot fail, so the error arm is never taken.
#[verifier::external_body]
fn int_text(v: i32) -> (r: String)
    ensures
        r@ == decimal_text(v as int),
{
    match serde_json::to_string(&v) {
        Ok(t) => t,
        Err(_) => String::new(),
    }
}

/// `true` or `false`.
pub open spec fn bool_json(b: bool) -> Seq<char> {
    if b {
        "true"@
    } else {
        "false"@
    }
}

/// An optional text as JSON: its string literal, or `null`.
pub open spec fn opt_text_json(o: Option<Seq<char>>) -> Seq<char> {
    match o {
        Some(t) => json_text(t),
        None => "null"@,
    }
}

/// An optional integer as JSON: its digits, or `null`.
pub open spec fn opt_int_json(o: Option<i32>) -> Seq<char> {
    match o {
        Some(v) => decimal_text(v as int),
        None => "null"@,
    }
}

/// A virtual machine as a JSON object, fields in declaration order, with its
/// text fields already written as JSON (`name`, and `ipv4` as a string or `null`).
pub open spec fn vm_json_with(m: VmModel, name: Seq<char>, ipv4: Seq<char>) -> Seq<char> {
    "{\"id\":"@ + decimal_text(m.id) + ",\"nome_vm\":"@ + name + ",\"endereco_ipv4_vm\":"@ + ipv4
        + ",\"flg_status_vm\":"@ + bool_json(m.active) + "}"@
}

/// A virtual machine as a JSON object.
pub open spec fn vm_json(m: VmModel) -> Seq<char> {
    vm_json_with(m, json_text(m.name), opt_text_json(m.ipv4))
}

/// A bot as a JSON object, fields in declaration order, with its text fields
/// already written as JSON (`day` and `time` as a string or `null`).
pub open spec fn bot_json_with(
    m: BotModel,
    name: Seq<char>,
    frequency: Seq<char>,
    day: Seq<char>,
    time: Seq<char>,
) -> Seq<char> {
    "{\"id\":"@ + decimal_text(m.id) + ",\"nome_automacao\":"@ + name + ",\"flg_status_bot\":"@
        + bool_json(m.active) + ",\"frequencia_execucao\":"@ + frequency + ",\"dia_execucao\":"@ + day
        + ",\"hora_execucao\":"@ + time + ",\"intervalo_execucao\":"@ + opt_int_json(m.interval)
        + ",\"tolerancia_execucao\":"@ + opt_int_json(m.tolerance) + ",\"virtual_machine_id\":"@
        + decimal_text(m.vm_id) + "}"@
}

/// A bot as a JSON object; the cadence is written by its lowercase name.
pub open spec fn bot_json(m: BotModel) -> Seq<char> {
    bot_json_with(
        m,
        json_text(m.name),
        json_text(frequency_name(m.frequency)),
        opt_text_json(m.day),
        opt_text_json(m.time),
    )
}

/// The items joined by commas.
pub open spec fn comma_joined(items: Seq<Seq<char>>) -> Seq<char>
    decreases items.len(),
{
    if items.len() == 0 {
        Seq::empty()
    } else if items.len() == 1 {
        items[0]
    } else {
        comma_joined(items.drop_last()) + ","@ + items.last()
    }
}

/// The body of a success that carries no data.
pub open spec fn ok_json() -> Seq<char> {
    "{\"sucess\":true}"@
}

/// The body of a failure, with its message already written as a JSON string.
pub open spec fn error_json_with(quoted: Seq<char>) -> Seq<char> {
    "{\"sucess\":false,\"message\":"@ + quoted + "}"@
}

/// The body of a failure, carrying its message.
pub open spec fn error_json(message: Seq<char>) -> Seq<char> {
    error_json_with(json_text(message))
}

/// The body that reports the id of a new row.
pub open spec fn created_json(id: int) -> Seq<char> {
    "{\"sucess\":true,\"data\":{\"id\":"@ + decimal_text(id) + "}}"@
}

/// The body of a success that carries a list.
pub open spec fn list_json(items: Seq<Seq<char>>) -> Seq<char> {
    "{\"sucess\":true,\"data\":["@ + comma_joined(items) + "]}"@
}

/// The body of a success that carries no data.
pub fn ok_body() -> (r: String)
    ensures
        r@ == ok_json(),
{
    String::from_str("{\"sucess\":true}")
}

/// The body of a failure, carrying its message.
pub fn error_body(message: &str) -> (r: String)
    ensures
        r@ == error_json(message@),
{
    let q = quote(message);
    error_body_with(q.as_str())
}

/// The body of a failure, with its message already written as a JSON string.
pub fn error_body_with(quoted: &str) -> (r: String)
    ensures
        r@ == error_json_with(quoted@),
{
    let mut out = String::from_str("{\"sucess\":false,\"message\":");
    out.append(quoted);
    out.append("}");
    out
}

/// The body that reports the id of a new row.
pub fn created_body(id: i32) -> (r: String)
    ensures
        r@ == created_json(id as int),
{
    let mut out = String::from_str("{\"sucess\":true,\"data\":{\"id\":");
    let d = int_text(id);
    out.append(d.as_str());
    out.append("}}");
    out
}

fn opt_text_value(o: &Option<String>) -> (r: String)
    ensures
        r@ == opt_text_json(crate::models::opt_text(*o)),
{
    match o {
        Some(t) => quote(t.as_str()),
        None => String::from_str("null"),
    }
}

fn append_opt_int(out: &mut String, o: Option<i32>)
    ensures
        final(out)@ == old(out)@ + opt_int_json(o),
{
    match o {
        Some(v) => {
            let d = int_text(v);
            out.append(d.as_str());
        },
        None => out.append("null"),
    }
}

fn append_bool(out: &mut String, b: bool)
    ensures
        final(out)@ == old(out)@ + bool_json(b),
{
    if b {
        out.append("true");
    } else {
        out.append("false");
    }
}

/// A virtual machine as a JSON object.
pub fn vm_object(row: &VirtualMachineRow) -> (r: String)
    ensures
        r@ == vm_json(row@),
{
    let name = quote(row.nome_vm.as_str());
    let ipv4 = opt_text_value(&row.endereco_ipv4_vm);
    vm_object_with(row, name.as_str(), ipv4.as_str())
}

/// A virtual machine as a JSON object, with its text fields already written as JSON.
pub fn vm_object_with(row: &VirtualMachineRow, name: &str, ipv4: &str) -> (r: String)
    ensures
        r@ == vm_json_with(row@, name@, ipv4@),
{
    let mut out = String::from_str("{\"id\":");
    let d = int_text(row.id);
    out.append(d.as_str());
    out.append(",\"nome_vm\":");
    out.append(name);
    out.append(",\"endereco_ipv4_vm\":");
    out.append(ipv4);
    out.append(",\"flg_status_vm\":");
    append_bool(&mut out, row.flg_status_vm);
    out.append("}");
    out
}

/// A bot as a JSON object.
pub fn bot_object(row: &BotsRow) -> (r: String)
    ensures
        r@ == bot_json(row@),
{
    let name = quote(row.nome_automacao.as_str());
    let frequency = quote(row.frequencia_execucao.as_str());
    let day = opt_text_value(&row.dia_execucao);
    let time = opt_text_value(&row.hora_execucao);
    bot_object_with(row, name.as_str(), frequency.as_str(), day.as_str(), time.as_str())
}

/// A bot as a JSON object, with its text fields already written as JSON.
pub fn bot_object_with(row: &BotsRow, name: &str, frequency: &str, day: &str, time: &str) -> (r: String)
    ensures
        r@ == bot_json_with(row@, name@, frequency@, day@, time@),
{
    let mut out = String::from_str("{\"id\":");
    let d = int_text(row.id);
    out.append(d.as_str());
    out.append(",\"nome_automacao\":");
    out.append(name);
    out.append(",\"flg_status_bot\":");
    append_bool(&mut out, row.flg_status_bot);
    out.append(",\"frequencia_execucao\":");
    out.append(frequency);
    out.append(",\"dia_execucao\":");
    out.append(day);
    out.append(",\"hora_execucao\":");
    out.append(time);
    out.append(",\"intervalo_execucao\":");
    append_opt_int(&mut out, row.intervalo_execucao);
    out.append(",\"tolerancia_execucao\":");
    append_opt_int(&mut out, row.tolerancia_execucao);
    out.append(",\"virtual_machine_id\":");
    let v = int_text(row.virtual_machine_id);
    out.append(v.as_str());
    out.append("}");
    out
}

/// The JSON objects of a list of virtual machines.
pub open spec fn vm_items(rows: Seq<VmModel>) -> Seq<Seq<char>> {
    rows.map_values(|m: VmModel| vm_json(m))
}

/// The JSON objects of a list of bots.
pub open spec fn bot_items(rows: Seq<BotModel>) -> Seq<Seq<char>> {
    rows.map_values(|m: BotModel| bot_json(m))
}

proof fn lemma_join_step(items: Seq<Seq<char>>, i: int)
    requires
        0 <= i < items.len(),
    ensures
        comma_joined(items.subrange(0, i + 1)) == if i == 0 {
            items[0]
        } else {
            comma_joined(items.subrange(0, i)) + ","@ + items[i]
        },
{
    let next = items.subrange(0, i + 1);
    assert(next.drop_last() =~= items.subrange(0, i));
}

/// The body that lists virtual machines.
pub fn vms_body(rows: &Vec<VirtualMachineRow>) -> (r: String)
    ensures
        r@ == list_json(vm_items(vm_views(rows@))),
{
    let ghost items = vm_items(vm_views(rows@));
    let mut joined = String::new();
    let n = rows.len();
    for i in 0..n
        invariant
            n == rows@.len(),
            items == vm_items(vm_views(rows@)),
            joined@ == comma_joined(items.subrange(0, i as int)),
    {
        proof {
            lemma_join_step(items, i as int);
        }
        if i > 0 {
            joined.append(",");
        }
        let o = vm_object(&rows[i]);
        joined.append(o.as_str());
        proof {
            if i == 0 {
                assert(joined@ =~= items[0]);
            }
        }
    }
    assert(items.subrange(0, n as int) =~= items);
    let mut out = String::from_str("{\"sucess\":true,\"data\":[");
    out.append(joined.as_str());
    out.append("]}");
    out
}

/// The body that lists bots.
pub fn bots_body(rows: &Vec<BotsRow>) -> (r: String)
    ensures
        r@ == list_json(bot_items(bot_views(rows@))),
{
    let ghost items = bot_items(bot_views(rows@));
    let mut joined = String::new();
    let n = rows.len();
    for i in 0..n
        invariant
            n == rows@.len(),
            items == bot_items(bot_views(rows@)),
            joined@ == comma_joined(items.subrange(0, i as int)),
    {
        proof {
            lemma_join_step(items, i as int);
        }
        if i > 0 {
            joined.append(",");
        }
        let o = bot_object(&rows[i]);
        joined.append(o.as_str());
        proof {
            if i == 0 {
                assert(joined@ =~= items[0]);
            }
        }
    }
    assert(items.subrange(0, n as int) =~= items);
    let mut out = String::from_str("{\"sucess\":true,\"data\":[");
    out.append(joined.as_str());
    out.append("]}");
    out
}

} // verus!
