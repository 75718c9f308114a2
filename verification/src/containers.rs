use crate::json::{
    json_document, json_view, member, parse_document, text_of, value_member, value_text, JsonView,
};
use crate::text::{blank, is_blank, opt_text, split_lines, text_lines, texts};
use vstd::prelude::*;
use vstd::string::*;

verus! {

/// A running container, as the container tool lists it.
#[derive(Clone, Debug, PartialEq, Eq)]
pub struct DockerContainer {
    pub id: String,
    pub name: String,
    pub image: String,
    pub status: String,
    pub state: String,
    pub ports: String,
}

pub struct DockerContainerView {
    pub id: Seq<char>,
    pub name: Seq<char>,
    pub image: Seq<char>,
    pub status: Seq<char>,
    pub state: Seq<char>,
    pub ports: Seq<char>,
}

impl View for DockerContainer {
    type V = DockerContainerView;

    open spec fn view(&self) -> DockerContainerView {
        DockerContainerView {
            id: self.id@,
            name: self.name@,
            image: self.image@,
            status: self.status@,
            state: self.state@,
            ports: self.ports@,
        }
    }
}

/// The containers of a list, in order.
pub open spec fn container_views(containers: Seq<DockerContainer>) -> Seq<DockerContainerView> {
    containers.map_values(|c: DockerContainer| c@)
}

/// The text under a key of an object: `None` where the value is no object,
/// has no such key, or holds something else than a text there.
pub open spec fn text_member(v: JsonView, key: Seq<char>) -> Option<Seq<char>> {
    match member(v, key) {
        Some(m) => text_of(m),
        None => None,
    }
}

/// The container that a record describes: an object that holds a text under
/// each of the six keys of the tool's listing. Anything else describes none.
pub open spec fn record_container(v: JsonView) -> Option<DockerContainerView> {
    if text_member(v, "ID"@).is_some() && text_member(v, "Names"@).is_some() && text_member(
        v,
        "Image"@,
    ).is_some() && text_member(v, "Status"@).is_some() && text_member(v, "State"@).is_some()
        && text_member(v, "Ports"@).is_some() {
        Some(
            DockerContainerView {
                id: text_member(v, "ID"@).unwrap(),
                name: text_member(v, "Names"@).unwrap(),
                image: text_member(v, "Image"@).unwrap(),
                status: text_member(v, "Status"@).unwrap(),
                state: text_member(v, "State"@).unwrap(),
                ports: text_member(v, "Ports"@).unwrap(),
            },
        )
    } else {
        None
    }
}

/// The container that a line of the listing describes: none for a blank
/// line, for a line that is no JSON, and for a record that describes none.
pub open spec fn line_container(line: Seq<char>) -> Option<DockerContainerView> {
    if blank(line) {
        None
    } else {
        match json_document(line) {
            Some(v) => record_container(v),
            None => None,
        }
    }
}

/// The containers that the lines of a listing describe, in the order of the
/// lines; a line that describes none is passed over.
pub open spec fn listed(lines: Seq<Seq<char>>) -> Seq<DockerContainerView>
    decreases lines.len(),
{
    if lines.len() == 0 {
        Seq::empty()
    } else {
        match line_container(lines.last()) {
            Some(c) => listed(lines.drop_last()).push(c),
            None => listed(lines.drop_last()),
        }
    }
}

fn read_text(v: &serde_json::Value, key: &str) -> (res: Option<String>)
    ensures
        opt_text(res) == text_member(json_view(*v), key@),
{
    match value_member(v, key) {
        Some(m) => match value_text(m) {
            Some(s) => Some(String::from_str(s)),
            None => None,
        },
        None => None,
    }
}

/// The view of a container that may be absent.
pub open spec fn opt_container(c: Option<DockerContainer>) -> Option<DockerContainerView> {
    match c {
        Some(c) => Some(c@),
        None => None,
    }
}

/// Reads the container that a record describes, from the six keys of a
/// parsed value. A record written as an array of six texts describes none
/// here, and of a key that the line holds twice the last value counts.
pub fn container_from_record(v: &serde_json::Value) -> (res: Option<DockerContainer>)
    ensures
        opt_container(res) == record_container(json_view(*v)),
{
    let id = read_text(v, "ID");
    let name = read_text(v, "Names");
    let image = read_text(v, "Image");
    let status = read_text(v, "Status");
    let state = read_text(v, "State");
    let ports = read_text(v, "Ports");
    match (id, name, image, status, state, ports) {
        (Some(id), Some(name), Some(image), Some(status), Some(state), Some(ports)) => Some(
            DockerContainer { id, name, image, status, state, ports },
        ),
        _ => None,
    }
}

/// Reads the container that a line of the listing describes.
pub fn parse_container_line(line: &str) -> (res: Option<DockerContainer>)
    ensures
        opt_container(res) == line_container(line@),
{
    if is_blank(line) {
        None
    } else {
        match parse_document(line) {
            Some(v) => container_from_record(&v),
            None => None,
        }
    }
}

/// Reads the containers from the lines of the tool's listing: one for each
/// line that describes one, in the order of the lines. Blank lines and
/// lines that cannot be read are passed over; they are no error.
pub fn containers_from_lines(lines: &Vec<String>) -> (res: Vec<DockerContainer>)
    ensures
        container_views(res@) == listed(texts(lines@)),
{
    let mut containers: Vec<DockerContainer> = Vec::new();
    let mut i: usize = 0;
    assert(container_views(containers@) =~= listed(texts(lines@).take(0)));
    while i < lines.len()
        invariant
            i <= lines.len(),
            container_views(containers@) == listed(texts(lines@).take(i as int)),
        decreases lines.len() - i,
    {
        let ghost found = container_views(containers@);
        proof {
            assert(texts(lines@).take(i + 1).drop_last() =~= texts(lines@).take(i as int));
            assert(texts(lines@).take(i + 1).last() == lines@[i as int]@);
        }
        match parse_container_line(lines[i].as_str()) {
            Some(container) => {
                containers.push(container);
                assert(container_views(containers@) =~= found.push(container@));
            },
            None => {},
        }
        i = i + 1;
    }
    assert(texts(lines@).take(i as int) =~= texts(lines@));
    containers
}

/// Reads the containers from what the container tool wrote, one record to a
/// line. Blank lines and lines that cannot be read are passed over; they are
/// no error.
pub fn list_docker_containers(stdout: &str) -> (res: Vec<DockerContainer>)
    ensures
        container_views(res@) == listed(text_lines(stdout@)),
{
    let lines = split_lines(stdout);
    containers_from_lines(&lines)
}

/// What is said where the container tool ended with a failure.
pub open spec fn listing_error(stderr: Seq<char>) -> Seq<char> {
    "Docker returned an error: "@ + stderr
}

/// Judges a run of the container tool: the containers that its output lists
/// where it ended with success, and else the error with what it wrote to
/// standard error.
pub fn container_listing(success: bool, stdout: &str, stderr: &str) -> (res: Result<
    Vec<DockerContainer>,
    String,
>)
    ensures
        success ==> res is Ok && container_views(res->Ok_0@) == listed(text_lines(stdout@)),
        !success ==> res is Err && res->Err_0@ == listing_error(stderr@),
{
    if success {
        Ok(list_docker_containers(stdout))
    } else {
        Err(String::from_str("Docker returned an error: ").concat(stderr))
    }
}

} // verus!
