//! What is written into the tickets that tell of requests for access.

use crate::model::entity::client::Client;
use crate::utils::text::{join3, replace_all, replace_all_in};
use vstd::prelude::*;
use vstd::string::*;

verus! {

/// The urgency of every ticket.
pub const URGENCY: usize = 2;

/// The impact of every ticket.
pub const IMPACT: usize = 3;

/// The kind of solution that closes every ticket.
pub const SOLUTION_TYPE: usize = 3;

/// A ticket to open.
#[derive(Debug)]
pub struct Ticket {
    pub name: String,
    pub content: String,
    pub status: usize,
    pub urgency: usize,
    pub impact: usize,
    pub priority: usize,
    pub users_id_requester: usize,
    pub itilcategories_id: usize,
}

/// The solution that closes a ticket.
#[derive(Debug)]
pub struct Solution {
    pub status: usize,
    pub solution: String,
    pub solutiontypes_id: usize,
    pub solutiontemplates_id: usize,
}

/// The place holder for what is known under `name`: the name in braces.
pub open spec fn place_holder(name: Seq<char>) -> Seq<char> {
    "{"@ + name + "}"@
}

/// `text` with the place holder of each field replaced by the field's
/// value, field after field.
pub open spec fn with_fields(text: Seq<char>, fields: Seq<(String, String)>) -> Seq<char>
    decreases fields.len(),
{
    if fields.len() == 0 {
        text
    } else {
        with_fields(
            replace_all(text, place_holder(fields[0].0@), fields[0].1@),
            fields.subrange(1, fields.len() as int),
        )
    }
}

/// The text of a ticket on the record `client`: `template` with `{name}`,
/// `{email}` and `{phone}` replaced by the person's name, address and phone
/// number, and then the place holder of each further field by its value.
pub open spec fn ticket_text(template: Seq<char>, client: Client) -> Seq<char> {
    with_fields(
        replace_all(
            replace_all(
                replace_all(template, "{name}"@, client.full_name@),
                "{email}"@,
                client.email@,
            ),
            "{phone}"@,
            client.phone@,
        ),
        client.fields@,
    )
}

/// Fills `template` in for the record `client`.
pub fn ticket_content(template: &str, client: &Client) -> (content: String)
    ensures
        content@ == ticket_text(template@, *client),
{
    let named: String = replace_all_in(template, "{name}", client.full_name.as_str());
    let mailed: String = replace_all_in(named.as_str(), "{email}", client.email.as_str());
    let mut content: String = replace_all_in(mailed.as_str(), "{phone}", client.phone.as_str());
    let mut i: usize = 0;
    assert(client.fields@.subrange(0, client.fields@.len() as int) == client.fields@);
    while i < client.fields.len()
        invariant
            i <= client.fields@.len(),
            with_fields(
                content@,
                client.fields@.subrange(i as int, client.fields@.len() as int),
            ) == ticket_text(template@, *client),
        decreases client.fields@.len() - i,
    {
        let ghost rest = client.fields@.subrange(i as int, client.fields@.len() as int);
        assert(rest[0] == client.fields@[i as int]);
        assert(rest.subrange(1, rest.len() as int) == client.fields@.subrange(
            i + 1,
            client.fields@.len() as int,
        ));
        let holder: String = join3("{", client.fields[i].0.as_str(), "}");
        content = replace_all_in(content.as_str(), holder.as_str(), client.fields[i].1.as_str());
        i += 1;
    }
    content
}

/// The ticket that tells of the record `client`.
pub fn create_ticket(
    client: &Client,
    title: String,
    content_ticket: &str,
    status: usize,
    priority: usize,
    user_id: usize,
    category_id: usize,
) -> (ticket: Ticket)
    ensures
        ticket.name == title,
        ticket.content@ == ticket_text(content_ticket@, *client),
        ticket.status == status,
        ticket.urgency == URGENCY,
        ticket.impact == IMPACT,
        ticket.priority == priority,
        ticket.users_id_requester == user_id,
        ticket.itilcategories_id == category_id,
{
    Ticket {
        name: title,
        content: ticket_content(content_ticket, client),
        status,
        urgency: URGENCY,
        impact: IMPACT,
        priority,
        users_id_requester: user_id,
        itilcategories_id: category_id,
    }
}

/// The solution that closes a ticket with `message`.
pub fn finish_ticket(message: String, status: usize, template_id: usize) -> (solution: Solution)
    ensures
        solution.status == status,
        solution.solution == message,
        solution.solutiontypes_id == SOLUTION_TYPE,
        solution.solutiontemplates_id == template_id,
{
    Solution {
        status,
        solution: message,
        solutiontypes_id: SOLUTION_TYPE,
        solutiontemplates_id: template_id,
    }
}

} // verus!
