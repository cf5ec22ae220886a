//! What the tables promise: which row shows which property, and in what order.

use crate::json::{self, JsonValue};
use crate::models::{ClientBands, ClientDevice, Device, GenericSignal, SimData};
use crate::rows::{self, GatewayTimeState};
use crate::snapshot::{ClientRowView, RowView};
use crate::text;
use crate::time::Instant;
use vstd::prelude::*;
use vstd::string::*;

verus! {

/// Whether a table shows `value` in the row called `label`: there is such a row
/// exactly if there is a value, and whatever row is called so holds that value.
pub open spec fn shows(
    table: Seq<RowView>,
    label: Seq<char>,
    value: Option<Seq<char>>,
) -> bool {
    &&& value matches Some(text) ==> table.contains(RowView { label, value: text })
    &&& forall|i: int|
        0 <= i < table.len() && (#[trigger] table[i]).label == label ==> value == Some(
            table[i].value,
        )
}

/// Whether one label stands before another.
pub open spec fn one_before(labels: Seq<Seq<char>>, one: Seq<char>, other: Seq<char>) -> bool {
    exists|a: int, b: int|
        #![trigger labels[a], labels[b]]
        0 <= a < b < labels.len() && labels[a] == one && labels[b] == other
}

/// Whether the rows of a table follow the order of `labels`, each label at most
/// once and no other.
pub open spec fn in_order(table: Seq<RowView>, labels: Seq<Seq<char>>) -> bool {
    &&& forall|i: int| 0 <= i < table.len() ==> labels.contains((#[trigger] table[i]).label)
    &&& forall|i: int, j: int|
        #![trigger table[i], table[j]]
        0 <= i < j < table.len() ==> one_before(labels, table[i].label, table[j].label)
}

/// The text that a property holds.
pub open spec fn told(property: Option<String>) -> Option<Seq<char>> {
    match property {
        Some(text) => Some(text@),
        None => None,
    }
}

/// The word for a truth value that is known.
pub open spec fn told_truth(property: Option<bool>) -> Option<Seq<char>> {
    match property {
        Some(truth) => if truth {
            Some("true"@)
        } else {
            Some("false"@)
        },
        None => None,
    }
}

/// A number that is known, in decimal and with its unit.
pub open spec fn told_amount(amount: Option<i64>, unit: Seq<char>) -> Option<Seq<char>> {
    match amount {
        Some(number) => Some(text::decimal(number as int) + unit),
        None => None,
    }
}

/// Whether no two of the labels are the same.
spec fn all_different(labels: Seq<Seq<char>>) -> bool {
    forall|i: int, j: int| 0 <= i < j < labels.len() ==> labels[i] != labels[j]
}

/// The labels of a list of properties.
spec fn labels_of(properties: Seq<(Seq<char>, Option<Seq<char>>)>) -> Seq<Seq<char>> {
    properties.map_values(|property: (Seq<char>, Option<Seq<char>>)| property.0)
}

/// The table of a list of properties.
spec fn table_of(properties: Seq<(Seq<char>, Option<Seq<char>>)>) -> Seq<RowView>
    decreases properties.len(),
{
    if properties.len() == 0 {
        Seq::empty()
    } else {
        table_of(properties.drop_last()) + rows::optional_row(
            properties.last().0,
            properties.last().1,
        )
    }
}

proof fn lemma_one_more(
    properties: Seq<(Seq<char>, Option<Seq<char>>)>,
    label: Seq<char>,
    value: Option<Seq<char>>,
)
    ensures
        table_of(properties.push((label, value))) == table_of(properties) + rows::optional_row(
            label,
            value,
        ),
        labels_of(properties.push((label, value))) == labels_of(properties).push(label),
{
    assert(properties.push((label, value)).drop_last() =~= properties);
    assert(labels_of(properties.push((label, value))) =~= labels_of(properties).push(label));
}

proof fn lemma_rows_come_from_properties(
    properties: Seq<(Seq<char>, Option<Seq<char>>)>,
    i: int,
) -> (k: int)
    requires
        0 <= i < table_of(properties).len(),
    ensures
        0 <= k < properties.len(),
        properties[k].0 == table_of(properties)[i].label,
        properties[k].1 == Some(table_of(properties)[i].value),
    decreases properties.len(),
{
    let before = table_of(properties.drop_last());
    if i < before.len() {
        lemma_rows_come_from_properties(properties.drop_last(), i)
    } else {
        properties.len() - 1
    }
}

proof fn lemma_properties_have_rows(
    properties: Seq<(Seq<char>, Option<Seq<char>>)>,
    k: int,
) -> (i: int)
    requires
        0 <= k < properties.len(),
        properties[k].1 is Some,
    ensures
        0 <= i < table_of(properties).len(),
        table_of(properties)[i] == (RowView {
            label: properties[k].0,
            value: properties[k].1->0,
        }),
    decreases properties.len(),
{
    let before = table_of(properties.drop_last());
    if k < properties.len() - 1 {
        lemma_properties_have_rows(properties.drop_last(), k)
    } else {
        before.len() as int
    }
}

proof fn lemma_rows_keep_the_order(
    properties: Seq<(Seq<char>, Option<Seq<char>>)>,
    i: int,
    j: int,
) -> (found: (int, int))
    requires
        0 <= i < j < table_of(properties).len(),
    ensures
        0 <= found.0 < found.1 < properties.len(),
        properties[found.0].0 == table_of(properties)[i].label,
        properties[found.1].0 == table_of(properties)[j].label,
    decreases properties.len(),
{
    let before = table_of(properties.drop_last());
    if j < before.len() {
        lemma_rows_keep_the_order(properties.drop_last(), i, j)
    } else {
        let a = lemma_rows_come_from_properties(properties.drop_last(), i);
        (a, properties.len() - 1)
    }
}

/// A table of properties with different labels shows each of them, in order.
proof fn lemma_table(properties: Seq<(Seq<char>, Option<Seq<char>>)>)
    requires
        all_different(labels_of(properties)),
    ensures
        forall|k: int|
            0 <= k < properties.len() ==> shows(
                table_of(properties),
                (#[trigger] properties[k]).0,
                properties[k].1,
            ),
        in_order(table_of(properties), labels_of(properties)),
{
    let table = table_of(properties);
    let labels = labels_of(properties);
    assert forall|k: int| 0 <= k < properties.len() implies shows(
        table,
        (#[trigger] properties[k]).0,
        properties[k].1,
    ) by {
        if properties[k].1 is Some {
            let i = lemma_properties_have_rows(properties, k);
            assert(table[i] == RowView { label: properties[k].0, value: properties[k].1->0 });
        }
        assert forall|i: int|
            0 <= i < table.len() && (#[trigger] table[i]).label
                == properties[k].0 implies properties[k].1 == Some(table[i].value) by {
            let from = lemma_rows_come_from_properties(properties, i);
            assert(labels[from] == labels[k]);
        }
    }
    assert forall|i: int| 0 <= i < table.len() implies labels.contains(
        (#[trigger] table[i]).label,
    ) by {
        let from = lemma_rows_come_from_properties(properties, i);
        assert(labels[from] == table[i].label);
    }
    assert forall|i: int, j: int|
        #![trigger table[i], table[j]]
        0 <= i < j < table.len() implies one_before(labels, table[i].label, table[j].label) by {
        let (a, b) = lemma_rows_keep_the_order(properties, i, j);
        assert(labels[a] == table[i].label);
        assert(labels[b] == table[j].label);
    }
}

/// Each property of a device has a row of its own, which shows that property and
/// no other; the name is the friendly one where there is one.
pub proof fn each_device_property_has_its_row(device: Device)
    ensures
        ({
            let table = rows::device_table(device);
            &&& device.friendly_name matches Some(name) ==> shows(table, "Name"@, Some(name@))
            &&& device.friendly_name is None ==> shows(table, "Name"@, told(device.name))
            &&& shows(table, "Manufacturer"@, told(device.manufacturer))
            &&& shows(table, "Model"@, told(device.model))
            &&& shows(table, "Serial"@, told(device.serial))
            &&& shows(table, "Hardware"@, told(device.hardware_version))
            &&& shows(table, "Software"@, told(device.software_version))
            &&& shows(table, "Update"@, told(device.update_state))
            &&& in_order(
                table,
                seq![
                    "Name"@,
                    "Manufacturer"@,
                    "Model"@,
                    "Serial"@,
                    "Hardware"@,
                    "Software"@,
                    "Update"@,
                ],
            )
        }),
{
    reveal_strlit("Name");
    reveal_strlit("Manufacturer");
    reveal_strlit("Model");
    reveal_strlit("Serial");
    reveal_strlit("Hardware");
    reveal_strlit("Software");
    reveal_strlit("Update");
    let name = if device.friendly_name is Some {
        told(device.friendly_name)
    } else {
        told(device.name)
    };
    let none = Seq::<(Seq<char>, Option<Seq<char>>)>::empty();
    let one = none.push(("Name"@, name));
    let two = one.push(("Manufacturer"@, told(device.manufacturer)));
    let three = two.push(("Model"@, told(device.model)));
    let four = three.push(("Serial"@, told(device.serial)));
    let five = four.push(("Hardware"@, told(device.hardware_version)));
    let six = five.push(("Software"@, told(device.software_version)));
    let seven = six.push(("Update"@, told(device.update_state)));
    lemma_one_more(none, "Name"@, name);
    lemma_one_more(one, "Manufacturer"@, told(device.manufacturer));
    lemma_one_more(two, "Model"@, told(device.model));
    lemma_one_more(three, "Serial"@, told(device.serial));
    lemma_one_more(four, "Hardware"@, told(device.hardware_version));
    lemma_one_more(five, "Software"@, told(device.software_version));
    lemma_one_more(six, "Update"@, told(device.update_state));
    assert(table_of(one) =~= rows::optional_row("Name"@, name));
    assert(table_of(seven) == rows::device_table(device));
    assert(labels_of(seven) =~= seq![
        "Name"@,
        "Manufacturer"@,
        "Model"@,
        "Serial"@,
        "Hardware"@,
        "Software"@,
        "Update"@,
    ]);
    assert("Serial"@[0] != "Update"@[0]);
    assert("Hardware"@[0] != "Software"@[0]);
    let labels = labels_of(seven);
    assert(labels[0].len() == 4 && labels[1].len() == 12 && labels[2].len() == 5);
    assert(labels[3].len() == 6 && labels[4].len() == 8 && labels[5].len() == 8);
    assert(labels[6].len() == 6 && labels.len() == 7);
    assert(all_different(labels));
    lemma_table(seven);
    assert(shows(table_of(seven), seven[0].0, seven[0].1));
    assert(shows(table_of(seven), seven[1].0, seven[1].1));
    assert(shows(table_of(seven), seven[2].0, seven[2].1));
    assert(shows(table_of(seven), seven[3].0, seven[3].1));
    assert(shows(table_of(seven), seven[4].0, seven[4].1));
    assert(shows(table_of(seven), seven[5].0, seven[5].1));
    assert(shows(table_of(seven), seven[6].0, seven[6].1));
}


/// Each property of a SIM has a row of its own, which shows that property and no
/// other.
pub proof fn each_sim_property_has_its_row(sim: SimData)
    ensures
        ({
            let table = rows::sim_table(sim);
            &&& shows(table, "ICCID"@, told(sim.icc_id))
            &&& shows(table, "IMEI"@, told(sim.imei))
            &&& shows(table, "IMSI"@, told(sim.imsi))
            &&& shows(table, "MSISDN"@, told(sim.msisdn))
            &&& shows(table, "Status"@, told_truth(sim.status))
            &&& in_order(table, seq!["ICCID"@, "IMEI"@, "IMSI"@, "MSISDN"@, "Status"@])
        }),
        rows::optional_sim_table(Some(&sim)) == rows::sim_table(sim),
        rows::optional_sim_table(None).len() == 0,
{
    reveal_strlit("ICCID");
    reveal_strlit("IMEI");
    reveal_strlit("IMSI");
    reveal_strlit("MSISDN");
    reveal_strlit("Status");
    let none = Seq::<(Seq<char>, Option<Seq<char>>)>::empty();
    let one = none.push(("ICCID"@, told(sim.icc_id)));
    let two = one.push(("IMEI"@, told(sim.imei)));
    let three = two.push(("IMSI"@, told(sim.imsi)));
    let four = three.push(("MSISDN"@, told(sim.msisdn)));
    let five = four.push(("Status"@, told_truth(sim.status)));
    lemma_one_more(none, "ICCID"@, told(sim.icc_id));
    lemma_one_more(one, "IMEI"@, told(sim.imei));
    lemma_one_more(two, "IMSI"@, told(sim.imsi));
    lemma_one_more(three, "MSISDN"@, told(sim.msisdn));
    lemma_one_more(four, "Status"@, told_truth(sim.status));
    assert(table_of(one) =~= rows::optional_row("ICCID"@, told(sim.icc_id)));
    assert(table_of(five) == rows::sim_table(sim));
    let labels = labels_of(five);
    assert(labels =~= seq!["ICCID"@, "IMEI"@, "IMSI"@, "MSISDN"@, "Status"@]);
    assert("IMEI"@[2] != "IMSI"@[2]);
    assert("MSISDN"@[0] != "Status"@[0]);
    assert(labels[0].len() == 5 && labels[1].len() == 4 && labels[2].len() == 4);
    assert(labels[3].len() == 6 && labels[4].len() == 6 && labels.len() == 5);
    assert(all_different(labels));
    lemma_table(five);
    assert(shows(table_of(five), five[0].0, five[0].1));
    assert(shows(table_of(five), five[1].0, five[1].1));
    assert(shows(table_of(five), five[2].0, five[2].1));
    assert(shows(table_of(five), five[3].0, five[3].1));
    assert(shows(table_of(five), five[4].0, five[4].1));
}

/// How long a gateway has been up, in words, if it told.
pub open spec fn told_uptime(state: GatewayTimeState, now: Instant) -> Option<Seq<char>> {
    match state.uptime {
        Some(seconds) => Some(
            rows::duration_text(rows::carried_forward(seconds, state.recorded_at, now)),
        ),
        None => None,
    }
}

/// Each property of the connection has a row of its own, which shows that property
/// and no other, and so has the uptime; what is not reported has no row.
pub proof fn each_connection_property_has_its_row(
    generic: Option<&GenericSignal>,
    time_state: Option<&GatewayTimeState>,
    now: Instant,
)
    ensures
        ({
            let table = rows::general_table(generic, time_state, now);
            &&& generic matches Some(known) ==> {
                &&& shows(table, "APN"@, told(known.apn))
                &&& shows(table, "Registration"@, told(known.registration))
                &&& shows(table, "IPv6"@, told_truth(known.has_ipv6))
                &&& shows(table, "Roaming"@, told_truth(known.roaming))
            }
            &&& generic is None ==> {
                &&& shows(table, "APN"@, None)
                &&& shows(table, "Registration"@, None)
                &&& shows(table, "IPv6"@, None)
                &&& shows(table, "Roaming"@, None)
            }
            &&& time_state matches Some(known) ==> shows(
                table,
                "Uptime"@,
                told_uptime(*known, now),
            )
            &&& time_state is None ==> shows(table, "Uptime"@, None)
            &&& in_order(table, seq!["APN"@, "Registration"@, "IPv6"@, "Roaming"@, "Uptime"@])
        }),
{
    reveal_strlit("APN");
    reveal_strlit("Registration");
    reveal_strlit("IPv6");
    reveal_strlit("Roaming");
    reveal_strlit("Uptime");
    let (apn, registration, ipv6, roaming) = match generic {
        Some(known) => (
            told(known.apn),
            told(known.registration),
            told_truth(known.has_ipv6),
            told_truth(known.roaming),
        ),
        None => (None, None, None, None),
    };
    let uptime = match time_state {
        Some(known) => told_uptime(*known, now),
        None => None,
    };
    let none = Seq::<(Seq<char>, Option<Seq<char>>)>::empty();
    let one = none.push(("APN"@, apn));
    let two = one.push(("Registration"@, registration));
    let three = two.push(("IPv6"@, ipv6));
    let four = three.push(("Roaming"@, roaming));
    let five = four.push(("Uptime"@, uptime));
    lemma_one_more(none, "APN"@, apn);
    lemma_one_more(one, "Registration"@, registration);
    lemma_one_more(two, "IPv6"@, ipv6);
    lemma_one_more(three, "Roaming"@, roaming);
    lemma_one_more(four, "Uptime"@, uptime);
    assert(table_of(one) =~= rows::optional_row("APN"@, apn));
    let generic_part = match generic {
        Some(known) => rows::generic_table(*known),
        None => Seq::empty(),
    };
    assert(table_of(four) =~= generic_part);
    let uptime_part = match time_state {
        Some(known) => rows::uptime_table(*known, now),
        None => Seq::empty(),
    };
    assert(rows::optional_row("Uptime"@, uptime) =~= uptime_part);
    assert(table_of(five) == rows::general_table(generic, time_state, now));
    let labels = labels_of(five);
    assert(labels =~= seq!["APN"@, "Registration"@, "IPv6"@, "Roaming"@, "Uptime"@]);
    assert(labels[0].len() == 3 && labels[1].len() == 12 && labels[2].len() == 4);
    assert(labels[3].len() == 7 && labels[4].len() == 6 && labels.len() == 5);
    assert(all_different(labels));
    lemma_table(five);
    assert(shows(table_of(five), five[0].0, five[0].1));
    assert(shows(table_of(five), five[1].0, five[1].1));
    assert(shows(table_of(five), five[2].0, five[2].1));
    assert(shows(table_of(five), five[3].0, five[3].1));
    assert(shows(table_of(five), five[4].0, five[4].1));
}

/// How many clients a list holds, if there is one.
pub open spec fn count_of(clients: Option<Vec<ClientDevice>>) -> int {
    match clients {
        Some(list) => list@.len() as int,
        None => 0,
    }
}

/// Whether a row shows one client: the band, the address and the hardware address
/// as told, and the name, or "Unknown" where there is none.
pub open spec fn shows_client(
    row: ClientRowView,
    band: Seq<char>,
    client: ClientDevice,
) -> bool {
    &&& row.band == band
    &&& client.ipv4 matches Some(ip) ==> row.ip == ip@
    &&& client.ipv4 is None ==> row.ip.len() == 0
    &&& client.mac matches Some(mac) ==> row.mac == mac@
    &&& client.mac is None ==> row.mac.len() == 0
    &&& client.name matches Some(name) ==> (name@.len() > 0 ==> row.name == name@)
    &&& (client.name is None || client.name->0@.len() == 0) ==> row.name == "Unknown"@
}

/// Whether a table shows, from a row on, the clients of a list in their order.
pub open spec fn shows_clients(
    table: Seq<ClientRowView>,
    from: int,
    band: Seq<char>,
    clients: Option<Vec<ClientDevice>>,
) -> bool {
    clients matches Some(list) ==> forall|i: int|
        0 <= i < list@.len() ==> shows_client(
            #[trigger] table[from + i],
            band,
            list@[i],
        )
}

/// Every client of every list has a row of its own under its band, list after list,
/// and there are no other rows.
pub proof fn every_client_has_its_row(clients: ClientBands)
    ensures
        ({
            let table = rows::client_table(clients);
            let two = count_of(clients.two_gig);
            let five = two + count_of(clients.five_gig);
            let six = five + count_of(clients.six_gig);
            let wifi = six + count_of(clients.wifi);
            &&& shows_clients(table, 0, "2.4 GHz"@, clients.two_gig)
            &&& shows_clients(table, two, "5 GHz"@, clients.five_gig)
            &&& shows_clients(table, five, "6 GHz"@, clients.six_gig)
            &&& shows_clients(table, six, "Wi-Fi"@, clients.wifi)
            &&& shows_clients(table, wifi, "Ethernet"@, clients.ethernet)
            &&& table.len() == wifi + count_of(clients.ethernet)
        }),
        rows::optional_client_table(Some(&clients)) == rows::client_table(clients),
        rows::optional_client_table(None).len() == 0,
{
    let none = Seq::<ClientRowView>::empty();
    let two = rows::band_entries("2.4 GHz"@, clients.two_gig);
    let five = rows::band_entries("5 GHz"@, clients.five_gig);
    let six = rows::band_entries("6 GHz"@, clients.six_gig);
    let wifi = rows::band_entries("Wi-Fi"@, clients.wifi);
    let wired = rows::band_entries("Ethernet"@, clients.ethernet);
    let table = rows::client_table(clients);
    assert(table =~= none + two + (five + six + wifi + wired));
    lemma_band_rows(none, (five + six + wifi + wired), "2.4 GHz"@, clients.two_gig);
    assert(table =~= two + five + (six + wifi + wired));
    lemma_band_rows(two, (six + wifi + wired), "5 GHz"@, clients.five_gig);
    assert(table =~= (two + five) + six + (wifi + wired));
    lemma_band_rows(two + five, wifi + wired, "6 GHz"@, clients.six_gig);
    lemma_band_rows(two + five + six, wired, "Wi-Fi"@, clients.wifi);
    assert(table =~= (two + five + six + wifi) + wired + none);
    lemma_band_rows(two + five + six + wifi, none, "Ethernet"@, clients.ethernet);
}

proof fn lemma_band_rows(
    before: Seq<ClientRowView>,
    after: Seq<ClientRowView>,
    band: Seq<char>,
    clients: Option<Vec<ClientDevice>>,
)
    ensures
        rows::band_entries(band, clients).len() == count_of(clients),
        shows_clients(
            before + rows::band_entries(band, clients) + after,
            before.len() as int,
            band,
            clients,
        ),
{
    if let Some(list) = clients {
        let own = rows::band_entries(band, clients);
        let table = before + own + after;
        assert forall|i: int| 0 <= i < list@.len() implies shows_client(
            #[trigger] table[before.len() + i],
            band,
            list@[i],
        ) by {
            assert(table[before.len() + i] == own[i]);
        }
    }
}


/// Each property of a radio has a row of its own, which shows what the document
/// holds under that property's name and no other, with its unit.
pub proof fn each_radio_property_has_its_row(document: Option<&JsonValue>)
    ensures
        ({
            let table = rows::radio_table(document);
            let none = Seq::<char>::empty();
            &&& shows(table, "Bars"@, told_amount(json::integer_under(document, "bars"@), none))
            &&& json::text_list_under(document, "bands"@) matches Some(bands) ==> shows(
                table,
                "Bands"@,
                Some(text::joined(bands, ", "@)),
            )
            &&& json::text_list_under(document, "bands"@) is None ==> shows(table, "Bands"@, None)
            &&& shows(table, "RSRP"@, told_amount(json::integer_under(document, "rsrp"@), " dBm"@))
            &&& shows(table, "RSRQ"@, told_amount(json::integer_under(document, "rsrq"@), " dB"@))
            &&& shows(table, "RSSI"@, told_amount(json::integer_under(document, "rssi"@), " dBm"@))
            &&& shows(table, "SINR"@, told_amount(json::integer_under(document, "sinr"@), " dB"@))
            &&& shows(table, "CQI"@, told_amount(json::integer_under(document, "cqi"@), none))
            &&& shows(table, "CID"@, told_amount(json::integer_under(document, "cid"@), none))
            &&& shows(table, "Bandwidth"@, json::text_under(document, "bandwidth"@))
            &&& shows(table, "PCI"@, json::text_under(document, "pci"@))
            &&& shows(table, "TAC"@, json::text_under(document, "tac"@))
            &&& in_order(
                table,
                seq![
                    "Bars"@,
                    "Bands"@,
                    "RSRP"@,
                    "RSRQ"@,
                    "RSSI"@,
                    "SINR"@,
                    "CQI"@,
                    "CID"@,
                    "Bandwidth"@,
                    "PCI"@,
                    "TAC"@,
                ],
            )
        }),
{
    reveal_strlit("Bars");
    reveal_strlit("Bands");
    reveal_strlit("RSRP");
    reveal_strlit("RSRQ");
    reveal_strlit("RSSI");
    reveal_strlit("SINR");
    reveal_strlit("CQI");
    reveal_strlit("CID");
    reveal_strlit("Bandwidth");
    reveal_strlit("PCI");
    reveal_strlit("TAC");
    json::integer_lookup_covers_rounding(document, "bars"@);
    let blank = Seq::<char>::empty();
    let bars = told_amount(json::integer_under(document, "bars"@), blank);
    let bands = rows::bands_under(document);
    let rsrp = told_amount(json::integer_under(document, "rsrp"@), " dBm"@);
    let rsrq = told_amount(json::integer_under(document, "rsrq"@), " dB"@);
    let rssi = told_amount(json::integer_under(document, "rssi"@), " dBm"@);
    let sinr = told_amount(json::integer_under(document, "sinr"@), " dB"@);
    let cqi = told_amount(json::integer_under(document, "cqi"@), blank);
    let cid = told_amount(json::integer_under(document, "cid"@), blank);
    let bandwidth = json::text_under(document, "bandwidth"@);
    let pci = json::text_under(document, "pci"@);
    let tac = json::text_under(document, "tac"@);
    let none = Seq::<(Seq<char>, Option<Seq<char>>)>::empty();
    let upto_bars = none.push(("Bars"@, bars));
    lemma_one_more(none, "Bars"@, bars);
    let upto_bands = upto_bars.push(("Bands"@, bands));
    lemma_one_more(upto_bars, "Bands"@, bands);
    assert(table_of(upto_bars) =~= rows::optional_row("Bars"@, bars));
    assert(table_of(upto_bands) == rows::reception_rows(document));
    let upto_rsrp = none.push(("RSRP"@, rsrp));
    lemma_one_more(none, "RSRP"@, rsrp);
    let upto_rsrq = upto_rsrp.push(("RSRQ"@, rsrq));
    lemma_one_more(upto_rsrp, "RSRQ"@, rsrq);
    let upto_rssi = upto_rsrq.push(("RSSI"@, rssi));
    lemma_one_more(upto_rsrq, "RSSI"@, rssi);
    let upto_sinr = upto_rssi.push(("SINR"@, sinr));
    lemma_one_more(upto_rssi, "SINR"@, sinr);
    let upto_cqi = upto_sinr.push(("CQI"@, cqi));
    lemma_one_more(upto_sinr, "CQI"@, cqi);
    assert(table_of(upto_rsrp) =~= rows::optional_row("RSRP"@, rsrp));
    assert(table_of(upto_cqi) == rows::figure_rows(rows::metrics_under(document)));
    let upto_cid = none.push(("CID"@, cid));
    lemma_one_more(none, "CID"@, cid);
    let upto_bandwidth = upto_cid.push(("Bandwidth"@, bandwidth));
    lemma_one_more(upto_cid, "Bandwidth"@, bandwidth);
    let upto_pci = upto_bandwidth.push(("PCI"@, pci));
    lemma_one_more(upto_bandwidth, "PCI"@, pci);
    let upto_tac = upto_pci.push(("TAC"@, tac));
    lemma_one_more(upto_pci, "TAC"@, tac);
    assert(table_of(upto_cid) =~= rows::optional_row("CID"@, cid));
    assert(table_of(upto_tac) == rows::cell_rows(document));
    lemma_tables_add_up(upto_bands, upto_cqi);
    lemma_tables_add_up(upto_bands + upto_cqi, upto_tac);
    let all = upto_bands + upto_cqi + upto_tac;
    assert(table_of(all) == rows::radio_table(document));
    let labels = labels_of(all);
    assert(labels =~= seq![
        "Bars"@,
        "Bands"@,
        "RSRP"@,
        "RSRQ"@,
        "RSSI"@,
        "SINR"@,
        "CQI"@,
        "CID"@,
        "Bandwidth"@,
        "PCI"@,
        "TAC"@,
    ]);
    assert(labels[0].len() == 4 && labels[1].len() == 5 && labels[2].len() == 4);
    assert(labels[3].len() == 4 && labels[4].len() == 4 && labels[5].len() == 4);
    assert(labels[6].len() == 3 && labels[7].len() == 3 && labels[8].len() == 9);
    assert(labels[9].len() == 3 && labels[10].len() == 3 && labels.len() == 11);
    assert(labels[0][0] == 'B' && labels[5][0] == 'S');
    assert(labels[2][0] == 'R' && labels[2][3] == 'P');
    assert(labels[3][0] == 'R' && labels[3][3] == 'Q');
    assert(labels[4][0] == 'R' && labels[4][3] == 'I');
    assert(labels[6][1] == 'Q' && labels[7][1] == 'I');
    assert(labels[6][0] == 'C' && labels[7][0] == 'C');
    assert(labels[9][0] == 'P' && labels[10][0] == 'T');
    assert(all_different(labels));
    lemma_table(all);
    assert(shows(table_of(all), all[0].0, all[0].1));
    assert(shows(table_of(all), all[1].0, all[1].1));
    assert(shows(table_of(all), all[2].0, all[2].1));
    assert(shows(table_of(all), all[3].0, all[3].1));
    assert(shows(table_of(all), all[4].0, all[4].1));
    assert(shows(table_of(all), all[5].0, all[5].1));
    assert(shows(table_of(all), all[6].0, all[6].1));
    assert(shows(table_of(all), all[7].0, all[7].1));
    assert(shows(table_of(all), all[8].0, all[8].1));
    assert(shows(table_of(all), all[9].0, all[9].1));
    assert(shows(table_of(all), all[10].0, all[10].1));
}

proof fn lemma_tables_add_up(
    first: Seq<(Seq<char>, Option<Seq<char>>)>,
    second: Seq<(Seq<char>, Option<Seq<char>>)>,
)
    ensures
        table_of(first + second) == table_of(first) + table_of(second),
    decreases second.len(),
{
    if second.len() == 0 {
        assert(first + second =~= first);
        assert(table_of(first) + Seq::<RowView>::empty() =~= table_of(first));
    } else {
        lemma_tables_add_up(first, second.drop_last());
        assert((first + second).drop_last() =~= first + second.drop_last());
        assert((first + second).last() == second.last());
        assert(table_of(first + second) =~= table_of(first) + table_of(second));
    }
}

} // verus!
