//! The completion list: four fixed lexicons merged, in a fixed order, into one
//! list of entries.

use vstd::prelude::*;
use vstd::string::StringExecFns;

verus! {

/// What kind of name a completion entry offers.
#[derive(Clone, Copy, Debug, PartialEq, Eq, Structural)]
pub enum Category {
    Function,
    DefinitionForm,
    Variable,
    BlockProperty,
}

/// How the editor is to read an entry's insert text.
#[derive(Clone, Copy, Debug, PartialEq, Eq, Structural)]
pub enum InsertFormat {
    PlainText,
    Snippet,
}

/// The item kinds of the protocol that the categories are shown as.
#[derive(Clone, Copy, Debug, PartialEq, Eq, Structural)]
pub enum ItemKind {
    Function,
    Class,
    Field,
}

/// The protocol item kind of each category; a block property carries none.
pub open spec fn category_kind(category: Category) -> Option<ItemKind> {
    match category {
        Category::Function => Some(ItemKind::Function),
        Category::DefinitionForm => Some(ItemKind::Class),
        Category::Variable => Some(ItemKind::Field),
        Category::BlockProperty => None,
    }
}

impl Category {
    /// The item kind under which the protocol lists an entry of this category.
    pub fn item_kind(&self) -> (kind: Option<ItemKind>)
        ensures
            kind == category_kind(*self),
    {
        match self {
            Category::Function => Some(ItemKind::Function),
            Category::DefinitionForm => Some(ItemKind::Class),
            Category::Variable => Some(ItemKind::Field),
            Category::BlockProperty => None,
        }
    }
}

/// Reference data of a native function or of a definition form.
#[derive(Clone, Debug, PartialEq, Eq)]
pub struct FormReference {
    pub name: String,
    pub description: String,
}

/// Reference data of a built-in variable; `token` is the text that refers to it.
#[derive(Clone, Debug, PartialEq, Eq)]
pub struct KeywordReference {
    pub name: String,
    pub description: String,
    pub token: String,
}

/// The four lexicons, each in its declared order.
#[derive(Clone, Debug, PartialEq, Eq)]
pub struct Lexicons {
    pub functions: Vec<FormReference>,
    pub definitions: Vec<FormReference>,
    pub variables: Vec<KeywordReference>,
    pub block_properties: Vec<String>,
}

/// One suggested insertion.
#[derive(Clone, Debug, PartialEq, Eq)]
pub struct CompletionEntry {
    pub label: String,
    pub category: Category,
    pub detail: String,
    pub documentation: Option<String>,
    pub insert_text: Option<String>,
    pub insert_format: Option<InsertFormat>,
}

/// A form reference with its texts as sequences of characters.
pub struct FormReferenceView {
    pub name: Seq<char>,
    pub description: Seq<char>,
}

/// A keyword reference with its texts as sequences of characters.
pub struct KeywordReferenceView {
    pub name: Seq<char>,
    pub description: Seq<char>,
    pub token: Seq<char>,
}

/// The four lexicons as sequences of reference views.
pub struct LexiconsView {
    pub functions: Seq<FormReferenceView>,
    pub definitions: Seq<FormReferenceView>,
    pub variables: Seq<KeywordReferenceView>,
    pub block_properties: Seq<Seq<char>>,
}

/// A completion entry with its texts as sequences of characters.
pub struct CompletionEntryView {
    pub label: Seq<char>,
    pub category: Category,
    pub detail: Seq<char>,
    pub documentation: Option<Seq<char>>,
    pub insert_text: Option<Seq<char>>,
    pub insert_format: Option<InsertFormat>,
}

impl View for FormReference {
    type V = FormReferenceView;

    open spec fn view(&self) -> FormReferenceView {
        FormReferenceView { name: self.name@, description: self.description@ }
    }
}

impl View for KeywordReference {
    type V = KeywordReferenceView;

    open spec fn view(&self) -> KeywordReferenceView {
        KeywordReferenceView {
            name: self.name@,
            description: self.description@,
            token: self.token@,
        }
    }
}

impl View for Lexicons {
    type V = LexiconsView;

    open spec fn view(&self) -> LexiconsView {
        LexiconsView {
            functions: self.functions@.map_values(|r: FormReference| r@),
            definitions: self.definitions@.map_values(|r: FormReference| r@),
            variables: self.variables@.map_values(|k: KeywordReference| k@),
            block_properties: self.block_properties@.map_values(|p: String| p@),
        }
    }
}

/// An optional text as an optional sequence of characters.
pub open spec fn text_view(text: Option<String>) -> Option<Seq<char>> {
    match text {
        Some(t) => Some(t@),
        None => None,
    }
}

impl View for CompletionEntry {
    type V = CompletionEntryView;

    open spec fn view(&self) -> CompletionEntryView {
        CompletionEntryView {
            label: self.label@,
            category: self.category,
            detail: self.detail@,
            documentation: text_view(self.documentation),
            insert_text: text_view(self.insert_text),
            insert_format: self.insert_format,
        }
    }
}

/// The entries of a list, each by its view.
pub open spec fn entries_view(entries: Seq<CompletionEntry>) -> Seq<CompletionEntryView> {
    entries.map_values(|e: CompletionEntry| e@)
}

/// The snippet that calls `name` with two placeholder arguments.
pub open spec fn call_template(name: Seq<char>) -> Seq<char> {
    "("@ + name + " ${1:foo} ${2:bar})"@
}

/// The entry of a native function or a definition form: labelled and
/// detailed by its name, documented by its description, inserted as a call
/// snippet.
pub open spec fn form_entry(form: FormReferenceView, category: Category) -> CompletionEntryView {
    CompletionEntryView {
        label: form.name,
        category,
        detail: form.name,
        documentation: Some(form.description),
        insert_text: Some(call_template(form.name)),
        insert_format: Some(InsertFormat::Snippet),
    }
}

/// The entry of a built-in variable: inserted as its plain token.
pub open spec fn variable_entry(keyword: KeywordReferenceView) -> CompletionEntryView {
    CompletionEntryView {
        label: keyword.name,
        category: Category::Variable,
        detail: keyword.name,
        documentation: Some(keyword.description),
        insert_text: Some(keyword.token),
        insert_format: Some(InsertFormat::PlainText),
    }
}

/// The entry of a block property: its name and nothing more.
pub open spec fn block_property_entry(name: Seq<char>) -> CompletionEntryView {
    CompletionEntryView {
        label: name,
        category: Category::BlockProperty,
        detail: Seq::empty(),
        documentation: None,
        insert_text: None,
        insert_format: None,
    }
}

/// The entries of the native functions, in lexicon order.
pub open spec fn function_entries(lexicons: LexiconsView) -> Seq<CompletionEntryView> {
    lexicons.functions.map_values(|f: FormReferenceView| form_entry(f, Category::Function))
}

/// The entries of the definition forms, in lexicon order.
pub open spec fn definition_entries(lexicons: LexiconsView) -> Seq<CompletionEntryView> {
    lexicons.definitions.map_values(
        |f: FormReferenceView| form_entry(f, Category::DefinitionForm),
    )
}

/// The entries of the built-in variables, in lexicon order.
pub open spec fn variable_entries(lexicons: LexiconsView) -> Seq<CompletionEntryView> {
    lexicons.variables.map_values(|k: KeywordReferenceView| variable_entry(k))
}

/// The entries of the block properties, in lexicon order.
pub open spec fn block_property_entries(lexicons: LexiconsView) -> Seq<CompletionEntryView> {
    lexicons.block_properties.map_values(|p: Seq<char>| block_property_entry(p))
}

/// The whole completion list: functions, then definition forms, then
/// variables, then block properties, each lexicon in its own order.
pub open spec fn completion_list(lexicons: LexiconsView) -> Seq<CompletionEntryView> {
    function_entries(lexicons) + definition_entries(lexicons) + variable_entries(lexicons)
        + block_property_entries(lexicons)
}

/// Builds the call snippet of a form.
pub fn make_call_template(name: &str) -> (snippet: String)
    ensures
        snippet@ == call_template(name@),
{
    let mut snippet = String::from_str("(");
    snippet.append(name);
    snippet.append(" ${1:foo} ${2:bar})");
    snippet
}

impl CompletionEntry {
    /// The entry offered for a native function or a definition form.
    pub fn for_form(form: &FormReference, category: Category) -> (entry: CompletionEntry)
        ensures
            entry@ == form_entry(form@, category),
    {
        CompletionEntry {
            label: form.name.clone(),
            category,
            detail: form.name.clone(),
            documentation: Some(form.description.clone()),
            insert_text: Some(make_call_template(form.name.as_str())),
            insert_format: Some(InsertFormat::Snippet),
        }
    }

    /// The entry offered for a built-in variable.
    pub fn for_variable(keyword: &KeywordReference) -> (entry: CompletionEntry)
        ensures
            entry@ == variable_entry(keyword@),
    {
        CompletionEntry {
            label: keyword.name.clone(),
            category: Category::Variable,
            detail: keyword.name.clone(),
            documentation: Some(keyword.description.clone()),
            insert_text: Some(keyword.token.clone()),
            insert_format: Some(InsertFormat::PlainText),
        }
    }

    /// The entry offered for a block property.
    pub fn for_block_property(name: &String) -> (entry: CompletionEntry)
        ensures
            entry@ == block_property_entry(name@),
    {
        CompletionEntry {
            label: name.clone(),
            category: Category::BlockProperty,
            detail: String::new(),
            documentation: None,
            insert_text: None,
            insert_format: None,
        }
    }
}

fn push_form_entries(out: &mut Vec<CompletionEntry>, forms: &Vec<FormReference>, category: Category)
    ensures
        entries_view(final(out)@) == entries_view(old(out)@) + forms@.map_values(
            |r: FormReference| r@,
        ).map_values(|f: FormReferenceView| form_entry(f, category)),
{
    let ghost start = out@;
    let mut i: usize = 0;
    while i < forms.len()
        invariant
            i <= forms.len(),
            out@.len() == start.len() + i,
            forall|j: int| 0 <= j < start.len() ==> out@[j] == start[j],
            forall|j: int|
                0 <= j < i ==> (#[trigger] out@[start.len() + j])@ == form_entry(
                    forms@[j]@,
                    category,
                ),
        decreases forms.len() - i,
    {
        let entry = CompletionEntry::for_form(&forms[i], category);
        out.push(entry);
        i = i + 1;
    }
    assert(entries_view(out@) =~= entries_view(start) + forms@.map_values(
        |r: FormReference| r@,
    ).map_values(|f: FormReferenceView| form_entry(f, category))) by {
        assert forall|k: int| start.len() <= k < out@.len() implies (#[trigger] out@[k])@
            == form_entry(forms@[k - start.len()]@, category) by {
            assert(out@[start.len() + (k - start.len())] == out@[k]);
        }
    }
}

fn push_variable_entries(out: &mut Vec<CompletionEntry>, keywords: &Vec<KeywordReference>)
    ensures
        entries_view(final(out)@) == entries_view(old(out)@) + keywords@.map_values(
            |k: KeywordReference| k@,
        ).map_values(|k: KeywordReferenceView| variable_entry(k)),
{
    let ghost start = out@;
    let mut i: usize = 0;
    while i < keywords.len()
        invariant
            i <= keywords.len(),
            out@.len() == start.len() + i,
            forall|j: int| 0 <= j < start.len() ==> out@[j] == start[j],
            forall|j: int|
                0 <= j < i ==> (#[trigger] out@[start.len() + j])@ == variable_entry(
                    keywords@[j]@,
                ),
        decreases keywords.len() - i,
    {
        let entry = CompletionEntry::for_variable(&keywords[i]);
        out.push(entry);
        i = i + 1;
    }
    assert(entries_view(out@) =~= entries_view(start) + keywords@.map_values(
        |k: KeywordReference| k@,
    ).map_values(|k: KeywordReferenceView| variable_entry(k))) by {
        assert forall|k: int| start.len() <= k < out@.len() implies (#[trigger] out@[k])@
            == variable_entry(keywords@[k - start.len()]@) by {
            assert(out@[start.len() + (k - start.len())] == out@[k]);
        }
    }
}

fn push_block_property_entries(out: &mut Vec<CompletionEntry>, names: &Vec<String>)
    ensures
        entries_view(final(out)@) == entries_view(old(out)@) + names@.map_values(
            |p: String| p@,
        ).map_values(|p: Seq<char>| block_property_entry(p)),
{
    let ghost start = out@;
    let mut i: usize = 0;
    while i < names.len()
        invariant
            i <= names.len(),
            out@.len() == start.len() + i,
            forall|j: int| 0 <= j < start.len() ==> out@[j] == start[j],
            forall|j: int|
                0 <= j < i ==> (#[trigger] out@[start.len() + j])@ == block_property_entry(
                    names@[j]@,
                ),
        decreases names.len() - i,
    {
        let entry = CompletionEntry::for_block_property(&names[i]);
        out.push(entry);
        i = i + 1;
    }
    assert(entries_view(out@) =~= entries_view(start) + names@.map_values(
        |p: String| p@,
    ).map_values(|p: Seq<char>| block_property_entry(p))) by {
        assert forall|k: int| start.len() <= k < out@.len() implies (#[trigger] out@[k])@
            == block_property_entry(names@[k - start.len()]@) by {
            assert(out@[start.len() + (k - start.len())] == out@[k]);
        }
    }
}

/// Merges the four lexicons into the completion list.
pub fn aggregate(lexicons: &Lexicons) -> (entries: Vec<CompletionEntry>)
    ensures
        entries_view(entries@) == completion_list(lexicons@),
{
    let mut entries: Vec<CompletionEntry> = Vec::new();
    push_form_entries(&mut entries, &lexicons.functions, Category::Function);
    push_form_entries(&mut entries, &lexicons.definitions, Category::DefinitionForm);
    push_variable_entries(&mut entries, &lexicons.variables);
    push_block_property_entries(&mut entries, &lexicons.block_properties);
    entries
}

/// The completion list is as long as the four lexicons together. It holds
/// the function entries first, then the definition forms, then the
/// variables, then the block properties, and within each group the entries
/// stand in the order of their lexicon.
pub proof fn lemma_completion_order(lexicons: LexiconsView)
    ensures
        completion_list(lexicons).len() == lexicons.functions.len() + lexicons.definitions.len()
            + lexicons.variables.len() + lexicons.block_properties.len(),
        forall|k: int|
            0 <= k < lexicons.functions.len() ==> #[trigger] completion_list(lexicons)[k]
                == form_entry(lexicons.functions[k], Category::Function),
        forall|k: int|
            lexicons.functions.len() <= k < lexicons.functions.len() + lexicons.definitions.len()
                ==> #[trigger] completion_list(lexicons)[k] == form_entry(
                lexicons.definitions[k - lexicons.functions.len()],
                Category::DefinitionForm,
            ),
        forall|k: int|
            lexicons.functions.len() + lexicons.definitions.len() <= k < lexicons.functions.len()
                + lexicons.definitions.len() + lexicons.variables.len()
                ==> #[trigger] completion_list(lexicons)[k] == variable_entry(
                lexicons.variables[k - lexicons.functions.len() - lexicons.definitions.len()],
            ),
        forall|k: int|
            lexicons.functions.len() + lexicons.definitions.len() + lexicons.variables.len() <= k
                < completion_list(lexicons).len() ==> #[trigger] completion_list(lexicons)[k]
                == block_property_entry(
                lexicons.block_properties[k - lexicons.functions.len()
                    - lexicons.definitions.len() - lexicons.variables.len()],
            ),
{
}

/// Every entry of the completion list carries the category of its group, so
/// the categories never interleave.
pub proof fn lemma_completion_categories(lexicons: LexiconsView, i: int)
    requires
        0 <= i < completion_list(lexicons).len(),
    ensures
        completion_list(lexicons)[i].category == (if i < lexicons.functions.len() {
            Category::Function
        } else if i < lexicons.functions.len() + lexicons.definitions.len() {
            Category::DefinitionForm
        } else if i < lexicons.functions.len() + lexicons.definitions.len()
            + lexicons.variables.len() {
            Category::Variable
        } else {
            Category::BlockProperty
        }),
{
}

} // verus!
