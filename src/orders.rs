use vstd::prelude::*;
use crate::error::TradeError;
use crate::json::{batch_body, json_list, json_quoted, push_json_string};

verus! {

/// One limit order of a batch.
#[derive(Clone, Debug)]
pub struct OrderRequest {
    pub symbol: String,
    pub side: String,
    pub order_type: String,
    pub qty: String,
    pub price: String,
}

/// One entry of the exchange's answer to a batch order.
#[derive(Clone, Debug)]
pub struct BatchOrderResponse {
    pub category: String,
    pub symbol: String,
    pub order_id: String,
    pub order_link_id: String,
    pub create_at: String,
}

/// The key under which a placed order is cancelled.
#[derive(Clone, Debug)]
pub struct CancelOrderData {
    pub symbol: String,
    pub order_id: String,
}

/// An order written as a JSON object, keys in sorted order.
pub open spec fn order_fields_json(
    symbol: Seq<char>,
    side: Seq<char>,
    order_type: Seq<char>,
    qty: Seq<char>,
    price: Seq<char>,
) -> Seq<char> {
    "{\"orderType\":"@ + json_quoted(order_type) + ",\"price\":"@ + json_quoted(price)
        + ",\"qty\":"@ + json_quoted(qty) + ",\"side\":"@ + json_quoted(side) + ",\"symbol\":"@
        + json_quoted(symbol) + "}"@
}

pub open spec fn order_json(o: OrderRequest) -> Seq<char> {
    order_fields_json(o.symbol@, o.side@, o.order_type@, o.qty@, o.price@)
}

/// A cancel key written as a JSON object, keys in sorted order.
pub open spec fn cancel_fields_json(symbol: Seq<char>, order_id: Seq<char>) -> Seq<char> {
    "{\"orderId\":"@ + json_quoted(order_id) + ",\"symbol\":"@ + json_quoted(symbol) + "}"@
}

pub open spec fn cancel_json(c: CancelOrderData) -> Seq<char> {
    cancel_fields_json(c.symbol@, c.order_id@)
}

pub open spec fn place_body_text(orders: Seq<OrderRequest>) -> Seq<char> {
    batch_body(orders.map_values(|o: OrderRequest| order_json(o)))
}

pub open spec fn cancel_body_text(records: Seq<CancelOrderData>) -> Seq<char> {
    batch_body(records.map_values(|c: CancelOrderData| cancel_json(c)))
}

/// `records` holds, in order, the symbol and order id of each of `responses`.
pub open spec fn records_of(records: Seq<CancelOrderData>, responses: Seq<BatchOrderResponse>) -> bool {
    &&& records.len() == responses.len()
    &&& forall|i: int|
        0 <= i < records.len() ==> (#[trigger] records[i]).symbol@ == responses[i].symbol@
            && records[i].order_id@ == responses[i].order_id@
}

proof fn lemma_json_list_step(items: Seq<Seq<char>>, i: int)
    requires
        0 <= i < items.len(),
    ensures
        json_list(items.take(i + 1)) == if i == 0 {
            items[0]
        } else {
            json_list(items.take(i)) + seq![','] + items[i]
        },
{
    assert(items.take(i + 1).drop_last() =~= items.take(i));
}

fn push_order_json(out: &mut String, o: &OrderRequest) -> (ok: bool)
    ensures
        ok,
        final(out)@ == old(out)@ + order_json(*o),
{
    let ghost start = out@;
    out.append("{\"orderType\":");
    if !push_json_string(out, o.order_type.as_str()) {
        return false;
    }
    out.append(",\"price\":");
    if !push_json_string(out, o.price.as_str()) {
        return false;
    }
    out.append(",\"qty\":");
    if !push_json_string(out, o.qty.as_str()) {
        return false;
    }
    out.append(",\"side\":");
    if !push_json_string(out, o.side.as_str()) {
        return false;
    }
    out.append(",\"symbol\":");
    if !push_json_string(out, o.symbol.as_str()) {
        return false;
    }
    out.append("}");
    assert(out@ =~= start + order_json(*o));
    true
}

fn push_cancel_json(out: &mut String, c: &CancelOrderData) -> (ok: bool)
    ensures
        ok,
        final(out)@ == old(out)@ + cancel_json(*c),
{
    let ghost start = out@;
    out.append("{\"orderId\":");
    if !push_json_string(out, c.order_id.as_str()) {
        return false;
    }
    out.append(",\"symbol\":");
    if !push_json_string(out, c.symbol.as_str()) {
        return false;
    }
    out.append("}");
    assert(out@ =~= start + cancel_json(*c));
    true
}

/// The JSON body of a batch order.
pub fn place_order_body(orders: &Vec<OrderRequest>) -> (r: Result<String, TradeError>)
    ensures
        r matches Ok(b) && b@ == place_body_text(orders@),
{
    let ghost items = orders@.map_values(|o: OrderRequest| order_json(o));
    let mut out = String::from_str("{\"category\":\"linear\",\"request\":[");
    let mut i: usize = 0;
    while i < orders.len()
        invariant
            i <= orders@.len(),
            items == orders@.map_values(|o: OrderRequest| order_json(o)),
            out@ == "{\"category\":\"linear\",\"request\":["@ + json_list(items.take(i as int)),
        decreases orders@.len() - i,
    {
        proof {
            lemma_json_list_step(items, i as int);
        }
        let ghost before = out@;
        if i > 0 {
            out.append(",");
            proof {
                reveal_strlit(",");
            }
        }
        if !push_order_json(&mut out, &orders[i]) {
            return Err(TradeError::Serialization);
        }
        assert(out@ =~= "{\"category\":\"linear\",\"request\":["@ + json_list(items.take(i + 1)));
        i = i + 1;
    }
    out.append("]}");
    assert(items.take(orders@.len() as int) =~= items);
    assert(out@ =~= place_body_text(orders@));
    Ok(out)
}

/// The JSON body of a batch cancel.
pub fn cancel_order_body(records: &Vec<CancelOrderData>) -> (r: Result<String, TradeError>)
    ensures
        r matches Ok(b) && b@ == cancel_body_text(records@),
{
    let ghost items = records@.map_values(|c: CancelOrderData| cancel_json(c));
    let mut out = String::from_str("{\"category\":\"linear\",\"request\":[");
    let mut i: usize = 0;
    while i < records.len()
        invariant
            i <= records@.len(),
            items == records@.map_values(|c: CancelOrderData| cancel_json(c)),
            out@ == "{\"category\":\"linear\",\"request\":["@ + json_list(items.take(i as int)),
        decreases records@.len() - i,
    {
        proof {
            lemma_json_list_step(items, i as int);
        }
        if i > 0 {
            out.append(",");
            proof {
                reveal_strlit(",");
            }
        }
        if !push_cancel_json(&mut out, &records[i]) {
            return Err(TradeError::Serialization);
        }
        assert(out@ =~= "{\"category\":\"linear\",\"request\":["@ + json_list(items.take(i + 1)));
        i = i + 1;
    }
    out.append("]}");
    assert(items.take(records@.len() as int) =~= items);
    assert(out@ =~= cancel_body_text(records@));
    Ok(out)
}

/// The cancel key of each placed order, in the order the exchange listed them.
pub fn cancel_records(responses: &Vec<BatchOrderResponse>) -> (r: Vec<CancelOrderData>)
    ensures
        records_of(r@, responses@),
{
    let mut out: Vec<CancelOrderData> = Vec::new();
    let mut i: usize = 0;
    while i < responses.len()
        invariant
            i <= responses@.len(),
            records_of(out@, responses@.take(i as int)),
        decreases responses@.len() - i,
    {
        let resp = &responses[i];
        out.push(CancelOrderData { symbol: resp.symbol.clone(), order_id: resp.order_id.clone() });
        i = i + 1;
    }
    assert(responses@.take(responses@.len() as int) =~= responses@);
    out
}

} // verus!
