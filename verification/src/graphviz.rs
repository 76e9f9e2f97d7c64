//! The graph description of persons and their relationships: one statement
//! per line, in the language of the layout tool.

use vstd::prelude::*;
use vstd::string::*;

use crate::error::FamilyError;
use crate::extension::{names_kind, names_unknown, same_text, Extension};
use crate::person::{MaritalStatus, Person, PersonView};
use crate::registry::PersonManager;
use crate::text::{append_decimal, decimal_text};
use crate::utils::{
    append_unique, concat_id, joined_ids, lemma_append_unique_members,
    lemma_append_unique_no_duplicates,
};

verus! {

/// The name of the node of the person `id`.
pub open spec fn node_name(id: u64) -> Seq<char> {
    "ID_"@ + decimal_text(id as nat)
}

/// The name of the node that stands for the relationship of `a` and `b`:
/// both ids, the smaller one first, so that the name is the same whichever
/// of the two is asked.
pub open spec fn couple_name(a: u64, b: u64) -> Seq<char> {
    "ID_"@ + joined_ids(a > b, b, a)
}

/// The status as the label of a person's node shows it.
pub open spec fn status_label(status: MaritalStatus) -> Seq<char> {
    match status {
        MaritalStatus::Single => "Single"@,
        MaritalStatus::Married(id) => "Married("@ + decimal_text(id as nat) + ")"@,
        MaritalStatus::Divorced(id) => "Divorced("@ + decimal_text(id as nat) + ")"@,
        MaritalStatus::Widowed(id) => "Widowed("@ + decimal_text(id as nat) + ")"@,
    }
}

/// The statement that declares the record-shaped node of a person.
pub open spec fn person_statement(person: PersonView) -> Seq<char> {
    node_name(person.info.id) + " [shape=record, nojustify=true, color="@
        + person.info.gender.color_text() + ", label=\""@ + node_name(person.info.id) + "\\n"@
        + person.info.lastname + "\\n"@ + person.info.firstname + "\\n"@ + person.info.birthday
        + "|{Status: "@ + status_label(person.marital_status) + "}\"];"@
}

/// The statement that declares the node of the relationship between `a` and
/// `b`, drawn as the status asks.
pub open spec fn couple_statement(a: u64, b: u64, status: MaritalStatus) -> Seq<char> {
    couple_name(a, b) + " [shape="@ + status.shape_text() + ", color="@ + status.color_text()
        + ", label=\"\"];"@
}

/// The statement of the edge from the node named `from` to the node named
/// `to`.
pub open spec fn edge_statement(from: Seq<char>, to: Seq<char>) -> Seq<char> {
    from + " -> "@ + to + ";"@
}

/// The statements of a person's relationship: none for a single person;
/// else the relationship's node, the edge from the person to it, and the
/// edge from the (former) spouse to it.
pub open spec fn relationship_statements(person: PersonView) -> Seq<Seq<char>> {
    match person.marital_status.partner() {
        None => Seq::empty(),
        Some(partner) => seq![
            couple_statement(person.info.id, partner, person.marital_status),
            edge_statement(node_name(person.info.id), couple_name(person.info.id, partner)),
            edge_statement(node_name(partner), couple_name(person.info.id, partner)),
        ],
    }
}

/// The statements of a person's descent: where both parents are recorded,
/// the edge from the parents' relationship to the person; else none.
pub open spec fn descent_statements(person: PersonView) -> Seq<Seq<char>> {
    match (person.mother, person.father) {
        (Some(mother), Some(father)) => seq![
            edge_statement(couple_name(mother, father), node_name(person.info.id)),
        ],
        _ => Seq::empty(),
    }
}

/// All statements of a person: the person's node, then the relationship,
/// then the descent.
pub open spec fn graphviz_statements(person: PersonView) -> Seq<Seq<char>> {
    seq![person_statement(person)] + relationship_statements(person) + descent_statements(person)
}

/// The statements of a person as one text: the node's statement, then the
/// relationship's and the descent's statements, each group on lines of its
/// own.
pub open spec fn graphviz_text(person: PersonView) -> Seq<char> {
    person_statement(person) + block_text(relationship_statements(person)) + block_text(
        descent_statements(person),
    )
}

/// A group of statements as text: nothing for an empty group; else a line
/// break, and every statement followed by a line break.
pub open spec fn block_text(lines: Seq<Seq<char>>) -> Seq<char> {
    if lines.len() == 0 {
        Seq::empty()
    } else {
        "\n"@ + lines_text(lines)
    }
}

/// Every line of `lines` followed by a line break.
pub open spec fn lines_text(lines: Seq<Seq<char>>) -> Seq<char>
    decreases lines.len(),
{
    if lines.len() == 0 {
        Seq::empty()
    } else {
        lines_text(lines.drop_last()) + lines.last() + "\n"@
    }
}

/// The texts of `lines`.
pub open spec fn texts_of(lines: Seq<String>) -> Seq<Seq<char>> {
    lines.map_values(|line: String| line@)
}

/// The relationship between two persons has one name, whichever of them is
/// asked for it.
pub proof fn lemma_couple_name_symmetric(a: u64, b: u64)
    ensures
        couple_name(a, b) == couple_name(b, a),
{
}

/// Two persons whose statuses are of the same kind and name each other
/// describe their relationship in the same three statements: the node is
/// the same, and the two edges are the same two, in the other order. So a
/// list that keeps equal statements once holds one node and one pair of edges
/// for the couple.
pub proof fn lemma_couple_shares_statements(a: PersonView, b: PersonView)
    requires
        a.marital_status.partner() == Some(b.info.id),
        b.marital_status.partner() == Some(a.info.id),
        a.marital_status.shape_text() == b.marital_status.shape_text(),
        a.marital_status.color_text() == b.marital_status.color_text(),
    ensures
        relationship_statements(a).len() == 3,
        relationship_statements(b).len() == 3,
        relationship_statements(b)[0] == relationship_statements(a)[0],
        relationship_statements(b)[1] == relationship_statements(a)[2],
        relationship_statements(b)[2] == relationship_statements(a)[1],
{
    lemma_couple_name_symmetric(a.info.id, b.info.id);
}

/// Appends the name of the node of `id`.
fn append_node_name(out: &mut String, id: u64)
    ensures
        final(out)@ == old(out)@ + node_name(id),
{
    out.append("ID_");
    append_decimal(out, id);
    assert(out@ =~= old(out)@ + node_name(id));
}

/// The name of the relationship node of `a` and `b`.
fn couple_name_string(a: u64, b: u64) -> (name: String)
    ensures
        name@ == couple_name(a, b),
{
    let mut name = String::from_str("ID_");
    let ids = concat_id(a > b, b, a);
    name.append(ids.as_str());
    name
}

/// The edge statement between two named nodes.
fn edge_string(from: &str, to: &str) -> (line: String)
    ensures
        line@ == edge_statement(from@, to@),
{
    let mut line = String::from_str(from);
    line.append(" -> ");
    line.append(to);
    line.append(";");
    line
}

impl MaritalStatus {
    /// The status as the label of a person's node shows it.
    pub fn label(&self) -> (label: String)
        ensures
            label@ == status_label(*self),
    {
        match self {
            MaritalStatus::Single => String::from_str("Single"),
            MaritalStatus::Married(id) => {
                let mut label = String::from_str("Married(");
                append_decimal(&mut label, *id);
                label.append(")");
                label
            },
            MaritalStatus::Divorced(id) => {
                let mut label = String::from_str("Divorced(");
                append_decimal(&mut label, *id);
                label.append(")");
                label
            },
            MaritalStatus::Widowed(id) => {
                let mut label = String::from_str("Widowed(");
                append_decimal(&mut label, *id);
                label.append(")");
                label
            },
        }
    }
}

impl Person {
    /// The id, a bar, and in braces the last name, the first name and the
    /// birth date.
    pub fn to_string(&self) -> (text: String)
        ensures
            text@ == "ID: "@ + decimal_text(self@.info.id as nat) + "|{"@ + self@.info.lastname
                + "|"@ + self@.info.firstname + "|"@ + self@.info.birthday + " }"@,
    {
        let mut text = String::from_str("ID: ");
        append_decimal(&mut text, self.get_id());
        text.append("|{");
        text.append(self.get_lastname());
        text.append("|");
        text.append(self.get_firstname());
        text.append("|");
        text.append(self.get_birthday());
        text.append(" }");
        text
    }

    /// The name of the node that stands for the person's relationship, for a
    /// person whose status names a (former) spouse. Both of a couple get the
    /// same name.
    pub fn get_couple_id(&self) -> (name: Option<String>)
        ensures
            match name {
                Some(n) => self@.marital_status.partner() matches Some(partner) && n@
                    == couple_name(self@.info.id, partner),
                None => self@.marital_status.partner() is None,
            },
    {
        match self.get_marital_status().get_partner() {
            Some(partner) => Some(couple_name_string(self.get_id(), partner)),
            None => None,
        }
    }

    /// The statement that declares the person's node.
    fn person_statement(&self) -> (line: String)
        ensures
            line@ == person_statement(self@),
    {
        let mut line = String::new();
        append_node_name(&mut line, self.get_id());
        line.append(" [shape=record, nojustify=true, color=");
        line.append(self.get_gender().get_color().as_str());
        line.append(", label=\"");
        append_node_name(&mut line, self.get_id());
        line.append("\\n");
        line.append(self.get_lastname());
        line.append("\\n");
        line.append(self.get_firstname());
        line.append("\\n");
        line.append(self.get_birthday());
        line.append("|{Status: ");
        line.append(self.get_marital_status().label().as_str());
        line.append("}\"];");
        assert(line@ =~= person_statement(self@));
        line
    }

    /// The three statements of the relationship with `connect_to`: its
    /// node, and the edges to it from the person and from `connect_to`.
    fn marital_statements(&self, connect_to: u64) -> (lines: Vec<String>)
        ensures
            texts_of(lines@) == seq![
                couple_statement(self@.info.id, connect_to, self@.marital_status),
                edge_statement(node_name(self@.info.id), couple_name(self@.info.id, connect_to)),
                edge_statement(node_name(connect_to), couple_name(self@.info.id, connect_to)),
            ],
    {
        let status = self.get_marital_status();
        let couple = couple_name_string(self.get_id(), connect_to);
        let mut node = String::from_str(couple.as_str());
        node.append(" [shape=");
        node.append(status.get_shape().as_str());
        node.append(", color=");
        node.append(status.get_color().as_str());
        node.append(", label=\"\"];");
        let mut own = String::new();
        append_node_name(&mut own, self.get_id());
        let mut other = String::new();
        append_node_name(&mut other, connect_to);
        let mut lines: Vec<String> = Vec::new();
        lines.push(node);
        lines.push(edge_string(own.as_str(), couple.as_str()));
        lines.push(edge_string(other.as_str(), couple.as_str()));
        assert(texts_of(lines@) =~= seq![
            couple_statement(self@.info.id, connect_to, self@.marital_status),
            edge_statement(node_name(self@.info.id), couple_name(self@.info.id, connect_to)),
            edge_statement(node_name(connect_to), couple_name(self@.info.id, connect_to)),
        ]);
        lines
    }

    /// The statements of the person's relationship: none for a single
    /// person.
    fn get_connection(&self) -> (lines: Vec<String>)
        ensures
            texts_of(lines@) == relationship_statements(self@),
    {
        match self.get_marital_status().get_partner() {
            Some(partner) => self.marital_statements(partner),
            None => {
                let lines: Vec<String> = Vec::new();
                assert(texts_of(lines@) =~= relationship_statements(self@));
                lines
            },
        }
    }

    /// The statement of the person's descent, where both parents are
    /// recorded.
    fn get_descent(&self) -> (lines: Vec<String>)
        ensures
            texts_of(lines@) == descent_statements(self@),
    {
        let mut lines: Vec<String> = Vec::new();
        match (self.mother_id(), self.father_id()) {
            (Some(mother), Some(father)) => {
                let couple = couple_name_string(mother, father);
                let mut own = String::new();
                append_node_name(&mut own, self.get_id());
                lines.push(edge_string(couple.as_str(), own.as_str()));
            },
            _ => {},
        }
        assert(texts_of(lines@) =~= descent_statements(self@));
        lines
    }

    /// The statements that describe the person: the person's node; for a
    /// person whose status names a (former) spouse, the node of the
    /// relationship and the edges to it from both; for a person with both
    /// parents recorded, the edge from the parents' relationship.
    pub fn graphviz_statements(&self) -> (lines: Vec<String>)
        ensures
            texts_of(lines@) == graphviz_statements(self@),
    {
        let mut lines: Vec<String> = Vec::new();
        lines.push(self.person_statement());
        let mut connection = self.get_connection();
        let mut descent = self.get_descent();
        let ghost first = lines@;
        let ghost second = connection@;
        let ghost third = descent@;
        lines.append(&mut connection);
        lines.append(&mut descent);
        assert(lines@ =~= first + second + third);
        assert(texts_of(lines@) =~= texts_of(first) + texts_of(second) + texts_of(third));
        assert(texts_of(first) =~= seq![person_statement(self@)]);
        lines
    }

    /// The person's statements as one text: the node's statement, then each
    /// further group of statements on lines of their own.
    pub fn to_graphviz(&self) -> (text: String)
        ensures
            text@ == graphviz_text(self@),
    {
        let mut text = self.person_statement();
        let connection = self.get_connection();
        append_block(&mut text, &connection);
        let descent = self.get_descent();
        append_block(&mut text, &descent);
        text
    }
}

/// Appends every line of `lines`, each followed by a line break.
pub fn append_lines(out: &mut String, lines: &Vec<String>)
    ensures
        final(out)@ == old(out)@ + lines_text(texts_of(lines@)),
{
    let mut i: usize = 0;
    assert(texts_of(lines@).take(0) =~= Seq::<Seq<char>>::empty());
    assert(out@ =~= old(out)@ + lines_text(texts_of(lines@).take(0)));
    while i < lines.len()
        invariant
            0 <= i <= lines@.len(),
            out@ == old(out)@ + lines_text(texts_of(lines@).take(i as int)),
        decreases lines@.len() - i,
    {
        proof {
            let next = texts_of(lines@).take(i + 1);
            assert(next.drop_last() =~= texts_of(lines@).take(i as int));
            assert(next.last() == lines@[i as int]@);
        }
        let ghost before = out@;
        out.append(lines[i].as_str());
        out.append("\n");
        assert(out@ =~= old(out)@ + lines_text(texts_of(lines@).take(i + 1)));
        i += 1;
    }
    assert(texts_of(lines@).take(i as int) =~= texts_of(lines@));
}

/// Appends a group of statements: nothing for an empty group; else a line
/// break and the lines.
fn append_block(out: &mut String, lines: &Vec<String>)
    ensures
        final(out)@ == old(out)@ + block_text(texts_of(lines@)),
{
    if lines.len() > 0 {
        out.append("\n");
        append_lines(out, lines);
        assert(out@ =~= old(out)@ + block_text(texts_of(lines@)));
    } else {
        assert(out@ =~= old(out)@ + block_text(texts_of(lines@)));
    }
}

/// The statements of the person `id`; none where no record is kept under
/// the id.
pub open spec fn statements_for(persons: Map<u64, PersonView>, id: u64) -> Seq<Seq<char>> {
    if persons.contains_key(id) {
        graphviz_statements(persons[id])
    } else {
        Seq::empty()
    }
}

/// The statements of the persons `order`, person after person.
pub open spec fn all_statements(persons: Map<u64, PersonView>, order: Seq<u64>) -> Seq<Seq<char>>
    decreases order.len(),
{
    if order.len() == 0 {
        Seq::empty()
    } else {
        all_statements(persons, order.drop_last()) + statements_for(persons, order.last())
    }
}

/// The statements of the persons `order` with every statement kept once,
/// where it first occurs.
pub open spec fn unique_statements(persons: Map<u64, PersonView>, order: Seq<u64>) -> Seq<
    Seq<char>,
> {
    append_unique(Seq::empty(), all_statements(persons, order))
}

/// The graph description that holds the statements `lines`.
pub open spec fn digraph_text(lines: Seq<Seq<char>>) -> Seq<char> {
    "digraph Alf {\n\n"@ + lines_text(lines) + "\n\n}\n"@
}

/// The arguments for the layout tool that an export to `file` needs: none
/// for the description's own file; else those that read the description and
/// write `file` as `extension` asks.
pub open spec fn layout_arguments(file: Seq<char>, extension: Extension) -> Option<Seq<char>> {
    if file == "output/tree.dot"@ {
        None
    } else {
        Some(extension.format_flag() + "output/tree.dot"@ + " -o "@ + file)
    }
}

/// Adding items one list after the other adds them as one list.
pub proof fn lemma_append_unique_twice<T>(acc: Seq<T>, first: Seq<T>, second: Seq<T>)
    ensures
        append_unique(append_unique(acc, first), second) == append_unique(acc, first + second),
    decreases second.len(),
{
    if second.len() == 0 {
        assert(first + second =~= first);
    } else {
        lemma_append_unique_twice(acc, first, second.drop_last());
        assert((first + second).drop_last() =~= first + second.drop_last());
        assert((first + second).last() == second.last());
    }
}

/// Whether `lines` holds the text `line`.
fn holds_line(lines: &Vec<String>, line: &String) -> (found: bool)
    ensures
        found == texts_of(lines@).contains(line@),
{
    let mut i: usize = 0;
    while i < lines.len()
        invariant
            0 <= i <= lines@.len(),
            forall|j: int| 0 <= j < i ==> texts_of(lines@)[j] != line@,
        decreases lines@.len() - i,
    {
        if lines[i] == *line {
            assert(texts_of(lines@)[i as int] == line@);
            return true;
        }
        i += 1;
    }
    false
}

/// Pushes onto `lines` those of `more` whose text it does not hold yet.
fn extend_unique_lines(lines: &mut Vec<String>, more: &Vec<String>)
    ensures
        texts_of(final(lines)@) == append_unique(texts_of(old(lines)@), texts_of(more@)),
{
    let mut i: usize = 0;
    assert(texts_of(more@).take(0) =~= Seq::<Seq<char>>::empty());
    while i < more.len()
        invariant
            0 <= i <= more@.len(),
            texts_of(lines@) == append_unique(
                texts_of(old(lines)@),
                texts_of(more@).take(i as int),
            ),
        decreases more@.len() - i,
    {
        proof {
            let next = texts_of(more@).take(i + 1);
            assert(next.drop_last() =~= texts_of(more@).take(i as int));
            assert(next.last() == more@[i as int]@);
        }
        if !holds_line(lines, &more[i]) {
            let ghost before = lines@;
            lines.push(more[i].clone());
            assert(texts_of(lines@) =~= texts_of(before).push(more@[i as int]@));
        }
        i += 1;
    }
    assert(texts_of(more@).take(i as int) =~= texts_of(more@));
}

/// What an export of the graph description asks to be done: the text to
/// write to the description's file, and the arguments with which the layout
/// tool is to be run on it, if it is to be run at all.
#[derive(Debug, PartialEq, Eq)]
pub struct GraphvizExport {
    pub text: String,
    pub arguments: Option<String>,
}

impl GraphvizExport {
    /// Whether the export holds the description of `persons`, walked in
    /// some order, and the arguments for the output `file` of the kind
    /// `extension`.
    pub open spec fn describes(
        self,
        persons: Map<u64, PersonView>,
        file: Seq<char>,
        extension: Extension,
    ) -> bool {
        &&& exists|order: Seq<u64>|
            {
                &&& #[trigger] order.no_duplicates()
                &&& order.to_set() == persons.dom()
                &&& self.text@ == digraph_text(unique_statements(persons, order))
            }
        &&& match self.arguments {
            Some(arguments) => layout_arguments(file, extension) == Some(arguments@),
            None => layout_arguments(file, extension) is None,
        }
    }
}

/// What an export of the graph description of `persons` to `file` comes to.
/// Without a file it succeeds, and describes the export to the description's
/// own file. A file whose name holds no dot is refused for want of an
/// extension. An export to a named file that succeeds describes `persons`
/// and the file under the kind that an extension held by the name stands
/// for. One that fails for an unknown extension names an extension that the
/// name holds, in upper case.
pub open spec fn graph_export_outcome(
    persons: Map<u64, PersonView>,
    file: Option<&str>,
    export: Result<GraphvizExport, FamilyError>,
) -> bool {
    &&& file is None ==> (export matches Ok(e) && e.describes(
        persons,
        "output/tree.dot"@,
        Extension::DOT,
    ))
    &&& (file matches Some(name) && !name@.contains('.')) ==> export == Err::<
        GraphvizExport,
        FamilyError,
    >(FamilyError::MissingExtension)
    &&& file matches Some(name) ==> match export {
        Ok(e) => exists|extension: Extension|
            names_kind(name@, extension) && #[trigger] e.describes(persons, name@, extension),
        Err(FamilyError::MissingExtension) => true,
        Err(FamilyError::UnsupportedExtension { extension }) => names_unknown(
            name@,
            extension@,
        ),
        Err(_) => false,
    }
}

impl PersonManager {
    /// The statements of the persons `order`, taken in that order, with
    /// every statement kept once: a statement that an earlier person gave
    /// already, as a couple's two members give those of their relationship,
    /// is left out. No statement of any of the persons is missing, and none
    /// is there twice. An id under which no record is kept adds nothing.
    pub fn statements_of(&self, order: &Vec<u64>) -> (lines: Vec<String>)
        ensures
            texts_of(lines@) == unique_statements(self@.persons, order@),
            texts_of(lines@).no_duplicates(),
            forall|line: Seq<char>|
                texts_of(lines@).contains(line) <==> all_statements(
                    self@.persons,
                    order@,
                ).contains(line),
    {
        let mut lines: Vec<String> = Vec::new();
        let mut i: usize = 0;
        assert(order@.take(0) =~= Seq::<u64>::empty());
        assert(texts_of(lines@) =~= Seq::<Seq<char>>::empty());
        while i < order.len()
            invariant
                0 <= i <= order@.len(),
                texts_of(lines@) == unique_statements(self@.persons, order@.take(i as int)),
            decreases order@.len() - i,
        {
            proof {
                let next = order@.take(i + 1);
                assert(next.drop_last() =~= order@.take(i as int));
                assert(next.last() == order@[i as int]);
                lemma_append_unique_twice(
                    Seq::<Seq<char>>::empty(),
                    all_statements(self@.persons, order@.take(i as int)),
                    statements_for(self@.persons, order@[i as int]),
                );
            }
            match self.get_person(order[i]) {
                Some(person) => {
                    let more = person.graphviz_statements();
                    extend_unique_lines(&mut lines, &more);
                },
                None => {},
            }
            i += 1;
        }
        proof {
            assert(order@.take(i as int) =~= order@);
            lemma_append_unique_no_duplicates(
                Seq::<Seq<char>>::empty(),
                all_statements(self@.persons, order@),
            );
            lemma_append_unique_members(
                Seq::<Seq<char>>::empty(),
                all_statements(self@.persons, order@),
            );
        }
        lines
    }

    /// The graph description of all registered persons, in the order in
    /// which the registry walks them.
    pub fn graphviz_text(&self) -> (text: String)
        ensures
            exists|order: Seq<u64>|
                {
                    &&& #[trigger] order.no_duplicates()
                    &&& order.to_set() == self@.persons.dom()
                    &&& text@ == digraph_text(unique_statements(self@.persons, order))
                },
    {
        let order = self.ids();
        let lines = self.statements_of(&order);
        let mut text = String::from_str("digraph Alf {\n\n");
        append_lines(&mut text, &lines);
        text.append("\n\n}\n");
        text
    }

    /// The arguments for the layout tool that an export to `file` of the
    /// kind `extension` needs, if it needs any.
    pub fn layout_arguments(file: &str, extension: Extension) -> (arguments: Option<String>)
        ensures
            match arguments {
                Some(a) => layout_arguments(file@, extension) == Some(a@),
                None => layout_arguments(file@, extension) is None,
            },
    {
        if same_text(file, "output/tree.dot") {
            None
        } else {
            Some(extension.get_dot_command("output/tree.dot", file))
        }
    }

    /// The export of the graph description where the output is `file` and
    /// its kind was found to be `extension`: the description of all
    /// registered persons, and the arguments for the layout tool unless
    /// `file` is the description's own file.
    pub fn to_graphviz_as(&self, file: &str, extension: Extension) -> (export: GraphvizExport)
        ensures
            export.describes(self@.persons, file@, extension),
    {
        GraphvizExport {
            text: self.graphviz_text(),
            arguments: Self::layout_arguments(file, extension),
        }
    }

    /// Prepares the export of the graph description. The description always
    /// goes to its own file, `output/tree.dot`. Where `file_in` names
    /// another file, its extension must be a known one, and the layout tool
    /// is to be run with the arguments returned; a name without extension
    /// or with an unknown one is refused. Without `file_in` the export
    /// cannot fail.
    pub fn to_graphviz(&self, file_in: Option<&str>) -> (export: Result<GraphvizExport, FamilyError>)
        ensures
            graph_export_outcome(self@.persons, file_in, export),
    {
        match file_in {
            None => Ok(self.to_graphviz_as("output/tree.dot", Extension::DOT)),
            Some(file) => match Extension::from_path(file) {
                Err(e) => Err(e),
                Ok(extension) => Ok(self.to_graphviz_as(file, extension)),
            },
        }
    }

    /// The export of the graph description for a drawing in the portable
    /// document format: `to_graphviz`, whatever the extension of
    /// `output_file`.
    pub fn to_pdf(&self, output_file: Option<&str>) -> (export: Result<GraphvizExport, FamilyError>)
        ensures
            graph_export_outcome(self@.persons, output_file, export),
    {
        self.to_graphviz(output_file)
    }

    /// The export of the graph description for a vector drawing:
    /// `to_graphviz`, whatever the extension of `output_file`.
    pub fn to_svg(&self, output_file: Option<&str>) -> (export: Result<GraphvizExport, FamilyError>)
        ensures
            graph_export_outcome(self@.persons, output_file, export),
    {
        self.to_graphviz(output_file)
    }

    /// The export of the graph description for a PNG image: `to_graphviz`,
    /// whatever the extension of `output_file`.
    pub fn to_png(&self, output_file: Option<&str>) -> (export: Result<GraphvizExport, FamilyError>)
        ensures
            graph_export_outcome(self@.persons, output_file, export),
    {
        self.to_graphviz(output_file)
    }

    /// The export of the graph description for a JPEG image: `to_graphviz`,
    /// whatever the extension of `output_file`.
    pub fn to_jpg(&self, output_file: Option<&str>) -> (export: Result<GraphvizExport, FamilyError>)
        ensures
            graph_export_outcome(self@.persons, output_file, export),
    {
        self.to_graphviz(output_file)
    }
}

} // verus!
