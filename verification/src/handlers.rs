//! The handlers that the demonstration server registers for its routes.
use vstd::prelude::*;
use crate::http::{
    HttpRequest, HttpResponse, body_text, header_text, lemma_header_text_inserted, method_name,
};
use crate::keyed::inserted;

verus! {

/// Answers with the method and the version of the request, then `World`.
pub fn get_name(request: HttpRequest, response: &mut HttpResponse)
    ensures
        final(response).body matches Some(b) && b@ == method_name(request.method) + " "@
            + request.version@ + " World"@,
        final(response).status == old(response).status,
        final(response).header@ == old(response).header@,
{
    let mut text = request.method.to_string();
    text.append(" ");
    text.append(request.version.as_str());
    text.append(" World");
    response.send(text);
}

/// Answers that this is the PUT method.
pub fn put_data(_request: HttpRequest, response: &mut HttpResponse)
    ensures
        final(response).body matches Some(b) && b@ == "This is put method"@,
        final(response).status == old(response).status,
        final(response).header@ == old(response).header@,
{
    response.send(String::from_str("This is put method"));
}

/// Answers with the body of the request, or says that there is none.
pub fn delete_data(request: HttpRequest, response: &mut HttpResponse)
    ensures
        final(response).body matches Some(b) && b@ == "delete method with data: "@ + (if body_text(
            request.body,
        ).len() == 0 {
            "body not found!"@
        } else {
            body_text(request.body)
        }),
        final(response).status == old(response).status,
        final(response).header@ == old(response).header@,
{
    let body = request.body_as_str();
    let mut send_str = String::new();
    if body.unicode_len() == 0 {
        send_str.append("body not found!");
    } else {
        send_str.append(body);
    }
    let mut text = String::from_str("delete method with data: ");
    text.append(send_str.as_str());
    response.send(text);
}

/// Answers with the body of the request as it came.
pub fn send_json(request: HttpRequest, response: &mut HttpResponse)
    ensures
        final(response).body matches Some(b) && b@ == body_text(request.body),
        final(response).status == old(response).status,
        final(response).header@ == old(response).header@,
{
    let body = request.body_as_str();
    response.send(body.to_owned());
}

/// Allows every origin, restricts connections to this origin, and answers
/// with the method and path of the request.
pub fn hold_server(request: HttpRequest, response: &mut HttpResponse)
    ensures
        final(response).body matches Some(b) && b@ == method_name(request.method) + " "@
            + request.path@ + " waiting for 20 sec"@,
        final(response).status == old(response).status,
        header_text(final(response).header@) == inserted(
            inserted(header_text(old(response).header@), "Access-Control-Allow-Origin"@, "*"@),
            "Content-Security-Policy"@,
            "connect-src 'self' *"@,
        ),
{
    let mut text = request.method.to_string();
    text.append(" ");
    text.append(request.path.as_str());
    text.append(" waiting for 20 sec");
    let v1 = String::from_str("*");
    let v2 = String::from_str("connect-src 'self' *");
    let ghost g1 = v1;
    let ghost g2 = v2;
    let ghost h0 = response.header@;
    let _ = response.header.len();
    response.set_header(String::from_str("Access-Control-Allow-Origin"), v1);
    proof {
        lemma_header_text_inserted(h0, "Access-Control-Allow-Origin"@, g1);
    }
    let ghost h1 = response.header@;
    let _ = response.header.len();
    response.set_header(String::from_str("Content-Security-Policy"), v2);
    proof {
        lemma_header_text_inserted(h1, "Content-Security-Policy"@, g2);
    }
    response.send(text);
}

} // verus!
