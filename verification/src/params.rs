//! The parameter set of a request: a sparse map from the exchange's field
//! names to values, and its two wire forms.

use vstd::prelude::*;
use vstd::string::StringExecFns;
use vstd::utf8::encode_utf8;
use crate::codec::{form_urlencode, form_urlencoded, json_quote, json_string_text};
use crate::text::{decimal, fixed_digits, push_decimal, push_fixed_digits};

verus! {

/// The fields a request can carry, in the order in which they are written.
#[derive(Clone, Copy, Debug, PartialEq, Eq, Structural)]
pub enum Field {
    Market,
    Count,
    Currency,
    Type,
    Depth,
    Amount,
    Price,
    Address,
    PageNumber,
    OrderId,
    Username,
}

/// How many fields there are.
pub const FIELD_COUNT: u8 = 11;

/// The field at each place of the canonical order.
pub open spec fn field_at(rank: nat) -> Field
    recommends
        rank < FIELD_COUNT,
{
    if rank == 0 {
        Field::Market
    } else if rank == 1 {
        Field::Count
    } else if rank == 2 {
        Field::Currency
    } else if rank == 3 {
        Field::Type
    } else if rank == 4 {
        Field::Depth
    } else if rank == 5 {
        Field::Amount
    } else if rank == 6 {
        Field::Price
    } else if rank == 7 {
        Field::Address
    } else if rank == 8 {
        Field::PageNumber
    } else if rank == 9 {
        Field::OrderId
    } else {
        Field::Username
    }
}

impl Field {
    /// The name of the field on the wire.
    pub open spec fn key_text(self) -> Seq<char> {
        match self {
            Field::Market => "Market"@,
            Field::Count => "Count"@,
            Field::Currency => "Currency"@,
            Field::Type => "Type"@,
            Field::Depth => "Depth"@,
            Field::Amount => "Amount"@,
            Field::Price => "Price"@,
            Field::Address => "Address"@,
            Field::PageNumber => "PageNumber"@,
            Field::OrderId => "OrderId"@,
            Field::Username => "Username"@,
        }
    }

    /// The place of the field in the canonical order.
    pub open spec fn rank(self) -> nat {
        match self {
            Field::Market => 0,
            Field::Count => 1,
            Field::Currency => 2,
            Field::Type => 3,
            Field::Depth => 4,
            Field::Amount => 5,
            Field::Price => 6,
            Field::Address => 7,
            Field::PageNumber => 8,
            Field::OrderId => 9,
            Field::Username => 10,
        }
    }

    /// The name of the field on the wire.
    pub fn key(self) -> (r: &'static str)
        ensures
            r@ == self.key_text(),
    {
        match self {
            Field::Market => "Market",
            Field::Count => "Count",
            Field::Currency => "Currency",
            Field::Type => "Type",
            Field::Depth => "Depth",
            Field::Amount => "Amount",
            Field::Price => "Price",
            Field::Address => "Address",
            Field::PageNumber => "PageNumber",
            Field::OrderId => "OrderId",
            Field::Username => "Username",
        }
    }

    /// The field at place `rank` of the canonical order.
    pub fn at(rank: u8) -> (f: Field)
        requires
            rank < FIELD_COUNT,
        ensures
            f == field_at(rank as nat),
            f.rank() == rank,
    {
        if rank == 0 {
            Field::Market
        } else if rank == 1 {
            Field::Count
        } else if rank == 2 {
            Field::Currency
        } else if rank == 3 {
            Field::Type
        } else if rank == 4 {
            Field::Depth
        } else if rank == 5 {
            Field::Amount
        } else if rank == 6 {
            Field::Price
        } else if rank == 7 {
            Field::Address
        } else if rank == 8 {
            Field::PageNumber
        } else if rank == 9 {
            Field::OrderId
        } else {
            Field::Username
        }
    }
}

/// How many units make one whole coin.
pub const UNITS_PER_COIN: u64 = 100_000_000;

/// A quantity of coin or a price, counted in hundred-millionths so that it
/// is written with exactly eight decimal places.
#[derive(Clone, Copy, Debug, PartialEq, Eq, Structural)]
pub struct Amount {
    pub units: u64,
}

/// The text of a quantity of `units` hundred-millionths: the whole part, a
/// point, and eight decimal places.
pub open spec fn amount_text(units: nat) -> Seq<char> {
    decimal(units / (UNITS_PER_COIN as nat)).push('.') + fixed_digits(
        units % (UNITS_PER_COIN as nat),
        8,
    )
}

impl Amount {
    /// The quantity of `whole` coins and `fraction` hundred-millionths, or
    /// `None` where `fraction` is a whole coin or more or the sum does not
    /// fit.
    pub fn new(whole: u64, fraction: u64) -> (r: Option<Amount>)
        ensures
            match r {
                Some(a) => fraction < UNITS_PER_COIN && a.units == whole * UNITS_PER_COIN
                    + fraction,
                None => fraction >= UNITS_PER_COIN || whole * UNITS_PER_COIN + fraction
                    > u64::MAX,
            },
    {
        if fraction >= UNITS_PER_COIN {
            return None;
        }
        match whole.checked_mul(UNITS_PER_COIN) {
            Some(scaled) => match scaled.checked_add(fraction) {
                Some(units) => Some(Amount { units }),
                None => None,
            },
            None => None,
        }
    }

    /// Appends the text of the quantity to `out`.
    pub fn push_text(&self, out: &mut String)
        ensures
            final(out)@ == old(out)@ + amount_text(self.units as nat),
    {
        push_decimal(out, self.units / UNITS_PER_COIN);
        out.push('.');
        push_fixed_digits(out, self.units % UNITS_PER_COIN, 8);
    }
}

/// A value as the contracts see it.
pub ghost enum Datum {
    /// A text.
    Text(Seq<char>),
    /// A count or an identifier.
    Number(nat),
    /// A quantity, in hundred-millionths.
    Quantity(nat),
}

/// The value of one field.
#[derive(Debug, PartialEq, Eq)]
pub enum Value {
    Text(String),
    Number(u32),
    Quantity(Amount),
}

impl View for Value {
    type V = Datum;

    open spec fn view(&self) -> Datum {
        match self {
            Value::Text(s) => Datum::Text(s@),
            Value::Number(n) => Datum::Number(*n as nat),
            Value::Quantity(a) => Datum::Quantity(a.units as nat),
        }
    }
}

/// The fields of `values` whose place in the canonical order is below
/// `bound`, each with its value, in that order.
pub open spec fn entries_below(values: Map<Field, Datum>, bound: nat) -> Seq<(Field, Datum)>
    decreases bound,
{
    if bound == 0 {
        Seq::empty()
    } else {
        let field = field_at((bound - 1) as nat);
        let before = entries_below(values, (bound - 1) as nat);
        if values.dom().contains(field) {
            before.push((field, values[field]))
        } else {
            before
        }
    }
}

/// The populated fields of a parameter set with their values, in the
/// canonical order. Both wire forms are written from this list.
pub open spec fn entries(values: Map<Field, Datum>) -> Seq<(Field, Datum)> {
    entries_below(values, FIELD_COUNT as nat)
}

/// The parameter set that a list of fields and values describes: each entry
/// in turn is set, a later one replacing an earlier one for the same field.
pub open spec fn from_entries(list: Seq<(Field, Datum)>) -> Map<Field, Datum>
    decreases list.len(),
{
    if list.len() == 0 {
        Map::empty()
    } else {
        from_entries(list.drop_last()).insert(list.last().0, list.last().1)
    }
}

/// A value as it stands in a query string.
pub open spec fn query_value(value: Datum) -> Seq<char> {
    match value {
        Datum::Text(s) => form_urlencoded(encode_utf8(s)),
        Datum::Number(n) => decimal(n),
        Datum::Quantity(units) => amount_text(units),
    }
}

/// The query string for a list of fields and values: nothing for an empty
/// list; otherwise `name=value` for each entry, the first behind `?` and
/// every other behind `&`.
pub open spec fn query_text(list: Seq<(Field, Datum)>) -> Seq<char>
    decreases list.len(),
{
    if list.len() == 0 {
        Seq::empty()
    } else {
        let head = query_text(list.drop_last()).push(
            if list.len() == 1 {
                '?'
            } else {
                '&'
            },
        );
        head + list.last().0.key_text() + seq!['='] + query_value(list.last().1)
    }
}

/// A value as it stands in a JSON body.
pub open spec fn json_value(value: Datum) -> Seq<char> {
    match value {
        Datum::Text(s) => json_string_text(s),
        Datum::Number(n) => decimal(n),
        Datum::Quantity(units) => amount_text(units),
    }
}

/// One member of the JSON body: `"name":value`.
pub open spec fn json_member(entry: (Field, Datum)) -> Seq<char> {
    seq!['"'] + entry.0.key_text() + seq!['"', ':'] + json_value(entry.1)
}

/// The members of the JSON body for a list of fields and values, with a
/// comma between two of them.
pub open spec fn json_members(list: Seq<(Field, Datum)>) -> Seq<char>
    decreases list.len(),
{
    if list.len() == 0 {
        Seq::empty()
    } else if list.len() == 1 {
        json_member(list.last())
    } else {
        json_members(list.drop_last()).push(',') + json_member(list.last())
    }
}

/// The JSON body for a list of fields and values: one object.
pub open spec fn json_text(list: Seq<(Field, Datum)>) -> Seq<char> {
    seq!['{'] + json_members(list) + seq!['}']
}

/// The parameters of a request. A field that was never set is absent from
/// both wire forms.
#[derive(Debug)]
pub struct Params {
    market: Option<String>,
    count: Option<u32>,
    currency: Option<String>,
    typeo: Option<String>,
    depth: Option<u32>,
    amount: Option<Amount>,
    price: Option<Amount>,
    address: Option<String>,
    page_num: Option<u32>,
    orderid: Option<u32>,
    username: Option<String>,
}

/// A text field as the contracts see it.
pub open spec fn text_datum(value: Option<String>) -> Option<Datum> {
    match value {
        Some(s) => Some(Datum::Text(s@)),
        None => None,
    }
}

/// A number field as the contracts see it.
pub open spec fn number_datum(value: Option<u32>) -> Option<Datum> {
    match value {
        Some(n) => Some(Datum::Number(n as nat)),
        None => None,
    }
}

/// A quantity field as the contracts see it.
pub open spec fn quantity_datum(value: Option<Amount>) -> Option<Datum> {
    match value {
        Some(a) => Some(Datum::Quantity(a.units as nat)),
        None => None,
    }
}

impl Params {
    /// What the set holds for `field`.
    pub closed spec fn datum(&self, field: Field) -> Option<Datum> {
        match field {
            Field::Market => text_datum(self.market),
            Field::Count => number_datum(self.count),
            Field::Currency => text_datum(self.currency),
            Field::Type => text_datum(self.typeo),
            Field::Depth => number_datum(self.depth),
            Field::Amount => quantity_datum(self.amount),
            Field::Price => quantity_datum(self.price),
            Field::Address => text_datum(self.address),
            Field::PageNumber => number_datum(self.page_num),
            Field::OrderId => number_datum(self.orderid),
            Field::Username => text_datum(self.username),
        }
    }
}

impl View for Params {
    type V = Map<Field, Datum>;

    /// The set as a map from its populated fields to their values.
    closed spec fn view(&self) -> Map<Field, Datum> {
        Map::new(|field: Field| self.datum(field) is Some, |field: Field| self.datum(field)->0)
    }
}

impl Params {
    /// The empty parameter set.
    pub fn new() -> (r: Params)
        ensures
            r@ == Map::<Field, Datum>::empty(),
    {
        let r = Params {
            market: None,
            count: None,
            currency: None,
            typeo: None,
            depth: None,
            amount: None,
            price: None,
            address: None,
            page_num: None,
            orderid: None,
            username: None,
        };
        assert(r@ =~= Map::<Field, Datum>::empty());
        r
    }

    /// The set with `Market` set to the given value and every other field
    /// as it was.
    pub fn market(self, market: String) -> (r: Params)
        ensures
            r@ == self@.insert(Field::Market, Datum::Text(market@)),
    {
        let r = Params { market: Some(market), ..self };
        proof {
            Self::lemma_set(self, r, Field::Market, Datum::Text(market@));
        }
        r
    }

    /// The set with `Count` set to the given value and every other field
    /// as it was.
    pub fn count(self, count: u32) -> (r: Params)
        ensures
            r@ == self@.insert(Field::Count, Datum::Number(count as nat)),
    {
        let r = Params { count: Some(count), ..self };
        proof {
            Self::lemma_set(self, r, Field::Count, Datum::Number(count as nat));
        }
        r
    }

    /// The set with `Currency` set to the given value and every other field
    /// as it was.
    pub fn currency(self, currency: String) -> (r: Params)
        ensures
            r@ == self@.insert(Field::Currency, Datum::Text(currency@)),
    {
        let r = Params { currency: Some(currency), ..self };
        proof {
            Self::lemma_set(self, r, Field::Currency, Datum::Text(currency@));
        }
        r
    }

    /// The set with `Type` set to the given value and every other field
    /// as it was.
    pub fn typeo(self, typeo: String) -> (r: Params)
        ensures
            r@ == self@.insert(Field::Type, Datum::Text(typeo@)),
    {
        let r = Params { typeo: Some(typeo), ..self };
        proof {
            Self::lemma_set(self, r, Field::Type, Datum::Text(typeo@));
        }
        r
    }

    /// The set with `Depth` set to the given value and every other field
    /// as it was.
    pub fn depth(self, depth: u32) -> (r: Params)
        ensures
            r@ == self@.insert(Field::Depth, Datum::Number(depth as nat)),
    {
        let r = Params { depth: Some(depth), ..self };
        proof {
            Self::lemma_set(self, r, Field::Depth, Datum::Number(depth as nat));
        }
        r
    }

    /// The set with `Amount` set to the given value and every other field
    /// as it was.
    pub fn amount(self, amount: Amount) -> (r: Params)
        ensures
            r@ == self@.insert(Field::Amount, Datum::Quantity(amount.units as nat)),
    {
        let r = Params { amount: Some(amount), ..self };
        proof {
            Self::lemma_set(self, r, Field::Amount, Datum::Quantity(amount.units as nat));
        }
        r
    }

    /// The set with `Price` set to the given value and every other field
    /// as it was.
    pub fn price(self, price: Amount) -> (r: Params)
        ensures
            r@ == self@.insert(Field::Price, Datum::Quantity(price.units as nat)),
    {
        let r = Params { price: Some(price), ..self };
        proof {
            Self::lemma_set(self, r, Field::Price, Datum::Quantity(price.units as nat));
        }
        r
    }

    /// The set with `Address` set to the given value and every other field
    /// as it was.
    pub fn address(self, address: String) -> (r: Params)
        ensures
            r@ == self@.insert(Field::Address, Datum::Text(address@)),
    {
        let r = Params { address: Some(address), ..self };
        proof {
            Self::lemma_set(self, r, Field::Address, Datum::Text(address@));
        }
        r
    }

    /// The set with `PageNumber` set to the given value and every other field
    /// as it was.
    pub fn page_num(self, page_num: u32) -> (r: Params)
        ensures
            r@ == self@.insert(Field::PageNumber, Datum::Number(page_num as nat)),
    {
        let r = Params { page_num: Some(page_num), ..self };
        proof {
            Self::lemma_set(self, r, Field::PageNumber, Datum::Number(page_num as nat));
        }
        r
    }

    /// The set with `OrderId` set to the given value and every other field
    /// as it was.
    pub fn orderid(self, orderid: u32) -> (r: Params)
        ensures
            r@ == self@.insert(Field::OrderId, Datum::Number(orderid as nat)),
    {
        let r = Params { orderid: Some(orderid), ..self };
        proof {
            Self::lemma_set(self, r, Field::OrderId, Datum::Number(orderid as nat));
        }
        r
    }

    /// The set with `Username` set to the given value and every other field
    /// as it was.
    pub fn username(self, username: String) -> (r: Params)
        ensures
            r@ == self@.insert(Field::Username, Datum::Text(username@)),
    {
        let r = Params { username: Some(username), ..self };
        proof {
            Self::lemma_set(self, r, Field::Username, Datum::Text(username@));
        }
        r
    }

    /// What the set holds for `field`, if anything.
    pub fn get(&self, field: Field) -> (r: Option<Value>)
        ensures
            r is Some <==> self@.dom().contains(field),
            r matches Some(value) ==> value@ == self@[field],
    {
        match field {
            Field::Market => Self::text_value(&self.market),
            Field::Count => Self::number_value(self.count),
            Field::Currency => Self::text_value(&self.currency),
            Field::Type => Self::text_value(&self.typeo),
            Field::Depth => Self::number_value(self.depth),
            Field::Amount => Self::quantity_value(self.amount),
            Field::Price => Self::quantity_value(self.price),
            Field::Address => Self::text_value(&self.address),
            Field::PageNumber => Self::number_value(self.page_num),
            Field::OrderId => Self::number_value(self.orderid),
            Field::Username => Self::text_value(&self.username),
        }
    }

    fn text_value(value: &Option<String>) -> (r: Option<Value>)
        ensures
            r is Some <==> value is Some,
            r matches Some(v) ==> Some(v@) == text_datum(*value),
    {
        match value {
            Some(s) => Some(Value::Text(s.clone())),
            None => None,
        }
    }

    fn number_value(value: Option<u32>) -> (r: Option<Value>)
        ensures
            r is Some <==> value is Some,
            r matches Some(v) ==> Some(v@) == number_datum(value),
    {
        match value {
            Some(n) => Some(Value::Number(n)),
            None => None,
        }
    }

    fn quantity_value(value: Option<Amount>) -> (r: Option<Value>)
        ensures
            r is Some <==> value is Some,
            r matches Some(v) ==> Some(v@) == quantity_datum(value),
    {
        match value {
            Some(a) => Some(Value::Quantity(a)),
            None => None,
        }
    }

    /// The set as a query string: nothing where no field is set, otherwise
    /// `?` and the populated fields as `name=value`, joined by `&`, in the
    /// canonical order. Texts are form-encoded.
    pub fn to_query_params(&self) -> (r: String)
        ensures
            r@ == query_text(entries(self@)),
    {
        let mut out = String::new();
        let mut first = true;
        let mut rank: u8 = 0;
        while rank < FIELD_COUNT
            invariant
                rank <= FIELD_COUNT,
                out@ == query_text(entries_below(self@, rank as nat)),
                first == (entries_below(self@, rank as nat).len() == 0),
            decreases FIELD_COUNT - rank,
        {
            let field = Field::at(rank);
            let ghost before = entries_below(self@, rank as nat);
            if let Some(value) = self.get(field) {
                proof {
                    let entry = (field, value@);
                    assert(entries_below(self@, (rank + 1) as nat) == before.push(entry));
                    assert(before.push(entry).drop_last() == before);
                    assert(before.push(entry).last() == entry);
                }
                out.push(if first { '?' } else { '&' });
                out.append(field.key());
                out.push('=');
                push_query_value(&mut out, &value);
                first = false;
            }
            rank += 1;
        }
        out
    }

    /// The set as a JSON body: one object whose members are the populated
    /// fields, in the canonical order. An empty set gives `{}`.
    pub fn to_json_body(&self) -> (r: String)
        ensures
            r@ == json_text(entries(self@)),
    {
        let mut out = String::new();
        out.push('{');
        let mut first = true;
        let mut rank: u8 = 0;
        while rank < FIELD_COUNT
            invariant
                rank <= FIELD_COUNT,
                out@ == seq!['{'] + json_members(entries_below(self@, rank as nat)),
                first == (entries_below(self@, rank as nat).len() == 0),
            decreases FIELD_COUNT - rank,
        {
            let field = Field::at(rank);
            let ghost before = entries_below(self@, rank as nat);
            if let Some(value) = self.get(field) {
                proof {
                    let entry = (field, value@);
                    assert(entries_below(self@, (rank + 1) as nat) == before.push(entry));
                    assert(before.push(entry).drop_last() == before);
                    assert(before.push(entry).last() == entry);
                }
                if !first {
                    out.push(',');
                }
                out.push('"');
                out.append(field.key());
                out.push('"');
                out.push(':');
                push_json_value(&mut out, &value);
                first = false;
            }
            rank += 1;
        }
        out.push('}');
        out
    }

    /// Setting one field changes the map at that field and nowhere else.
    proof fn lemma_set(before: Params, after: Params, field: Field, value: Datum)
        requires
            after.datum(field) == Some(value),
            forall|other: Field| other != field ==> after.datum(other) == before.datum(other),
        ensures
            after@ == before@.insert(field, value),
    {
        assert(after@ =~= before@.insert(field, value));
    }
}

/// Appends `value` to `out` as it stands in a query string.
pub fn push_query_value(out: &mut String, value: &Value)
    ensures
        final(out)@ == old(out)@ + query_value(value@),
{
    match value {
        Value::Text(s) => {
            let encoded = form_urlencode(s.as_str().as_bytes());
            out.append(encoded.as_str());
        },
        Value::Number(n) => {
            push_decimal(out, *n as u64);
        },
        Value::Quantity(a) => {
            a.push_text(out);
        },
    }
}

/// Appends `value` to `out` as it stands in a JSON body.
pub fn push_json_value(out: &mut String, value: &Value)
    ensures
        final(out)@ == old(out)@ + json_value(value@),
{
    match value {
        Value::Text(s) => {
            let quoted = json_quote(s.as_str());
            out.append(quoted.as_str());
        },
        Value::Number(n) => {
            push_decimal(out, *n as u64);
        },
        Value::Quantity(a) => {
            a.push_text(out);
        },
    }
}

/// What holds of the entries below a bound: each is a populated field below
/// the bound with its own value, the places rise strictly, and no populated
/// field below the bound is missing.
proof fn lemma_entries_below(values: Map<Field, Datum>, bound: nat)
    requires
        bound <= FIELD_COUNT,
    ensures
        forall|i: int|
            0 <= i < entries_below(values, bound).len() ==> {
                let entry = #[trigger] entries_below(values, bound)[i];
                &&& values.dom().contains(entry.0)
                &&& entry.1 == values[entry.0]
                &&& entry.0.rank() < bound
            },
        forall|i: int, j: int|
            0 <= i < j < entries_below(values, bound).len() ==> (#[trigger] entries_below(
                values,
                bound,
            )[i]).0.rank() < (#[trigger] entries_below(values, bound)[j]).0.rank(),
        forall|field: Field|
            field.rank() < bound && #[trigger] values.dom().contains(field) ==> exists|i: int|
                0 <= i < entries_below(values, bound).len() && (#[trigger] entries_below(
                    values,
                    bound,
                )[i]).0 == field,
    decreases bound,
{
    if bound > 0 {
        let before = entries_below(values, (bound - 1) as nat);
        let list = entries_below(values, bound);
        let last = field_at((bound - 1) as nat);
        lemma_entries_below(values, (bound - 1) as nat);
        assert(last.rank() == bound - 1);
        assert forall|field: Field|
            field.rank() < bound && #[trigger] values.dom().contains(field) implies exists|i: int|
            0 <= i < list.len() && (#[trigger] list[i]).0 == field by {
            if field.rank() < bound - 1 {
                let i = choose|i: int| 0 <= i < before.len() && (#[trigger] before[i]).0 == field;
                assert(list[i] == before[i]);
            } else {
                assert(field == last);
                assert(list[list.len() - 1].0 == field);
            }
        }
    }
}

/// Reading a list of entries back gives the map restricted to the places
/// below the bound.
proof fn lemma_from_entries_below(values: Map<Field, Datum>, bound: nat)
    requires
        bound <= FIELD_COUNT,
    ensures
        from_entries(entries_below(values, bound)) == values.restrict(
            Set::new(|field: Field| field.rank() < bound),
        ),
    decreases bound,
{
    let kept = values.restrict(Set::new(|field: Field| field.rank() < bound));
    if bound == 0 {
        assert(kept =~= Map::<Field, Datum>::empty());
    } else {
        let before = entries_below(values, (bound - 1) as nat);
        let last = field_at((bound - 1) as nat);
        let kept_before = values.restrict(Set::new(|field: Field| field.rank() < bound - 1));
        lemma_from_entries_below(values, (bound - 1) as nat);
        assert(last.rank() == bound - 1);
        assert forall|field: Field| field.rank() == bound - 1 implies field == last by {}
        if values.dom().contains(last) {
            let entry = (last, values[last]);
            assert(before.push(entry).drop_last() == before);
            assert(kept =~= kept_before.insert(last, values[last]));
        } else {
            assert(kept =~= kept_before);
        }
    }
}

/// Both wire forms are written from `entries`, and that list names exactly
/// the populated fields: every populated field stands in it, nothing else
/// does, each entry carries the value of its field, and the fields follow
/// the canonical order, so none stands twice.
pub proof fn lemma_entries_are_the_populated_fields(params: Params)
    ensures
        forall|field: Field| #[trigger]
            params@.dom().contains(field) <==> exists|i: int|
                0 <= i < entries(params@).len() && (#[trigger] entries(params@)[i]).0 == field,
        forall|i: int|
            0 <= i < entries(params@).len() ==> {
                let entry = #[trigger] entries(params@)[i];
                params@.dom().contains(entry.0) && entry.1 == params@[entry.0]
            },
        forall|i: int, j: int|
            0 <= i < j < entries(params@).len() ==> (#[trigger] entries(params@)[i]).0.rank()
                < (#[trigger] entries(params@)[j]).0.rank(),
{
    lemma_entries_below(params@, FIELD_COUNT as nat);
    let list = entries(params@);
    assert forall|field: Field| #[trigger]
        params@.dom().contains(field) <==> exists|i: int|
            0 <= i < list.len() && (#[trigger] list[i]).0 == field by {
        assert(field.rank() < FIELD_COUNT);
        if exists|i: int| 0 <= i < list.len() && (#[trigger] list[i]).0 == field {
            let i = choose|i: int| 0 <= i < list.len() && (#[trigger] list[i]).0 == field;
            assert(params@.dom().contains(list[i].0));
        }
    }
}

/// Reading the entries of a parameter set back, one field after the other,
/// rebuilds the set: no field is lost, none is added, and every value is
/// the one that was set.
pub proof fn lemma_entries_round_trip(params: Params)
    ensures
        from_entries(entries(params@)) == params@,
{
    lemma_from_entries_below(params@, FIELD_COUNT as nat);
    assert(params@.restrict(Set::new(|field: Field| field.rank() < FIELD_COUNT)) =~= params@);
}

/// No two fields share a name on the wire.
pub proof fn lemma_keys_are_distinct(first: Field, second: Field)
    requires
        first != second,
    ensures
        first.key_text() != second.key_text(),
{
    reveal_strlit("Market");
    reveal_strlit("Count");
    reveal_strlit("Currency");
    reveal_strlit("Type");
    reveal_strlit("Depth");
    reveal_strlit("Amount");
    reveal_strlit("Price");
    reveal_strlit("Address");
    reveal_strlit("PageNumber");
    reveal_strlit("OrderId");
    reveal_strlit("Username");
    assert(first.key_text().len() != second.key_text().len() || first.key_text()[0]
        != second.key_text()[0]);
}

} // verus!
