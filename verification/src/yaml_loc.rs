//! The files a localization set is stored as: one per language, rendered by a
//! template and framed as the game expects them.
//!
//! Saving a set is a sequence of steps. The library decides each step; the
//! rendering and the writing are done by whoever runs the save, who reports
//! back how they went.

use crate::common::{LocError, LocErrorView};
use crate::localization::{
    entry_views, lemma_names_distinct, EntryView, Language, Localization, LocalizationView,
};
use crate::template::{
    array_value, context_insert, context_json, fields_json, new_context, no_fields, number_value,
    object_value, text_value, value_json, values_json, Json,
};
use crate::text::{concat2, concat3, marked_bytes, with_bom};
use vstd::prelude::*;
use vstd::string::*;

verus! {

/// What a line of a file holds: the key, the version stamp, the text in the
/// language of the file, and the comment. A line with an empty key carries
/// only its comment.
pub struct LineView {
    pub key: Seq<char>,
    pub version: u8,
    pub content: Seq<char>,
    pub comment: Seq<char>,
}

/// One line of a localization file.
#[derive(Debug)]
pub struct Line {
    key: String,
    version: u8,
    content: String,
    comment: String,
}

impl View for Line {
    type V = LineView;

    closed spec fn view(&self) -> LineView {
        LineView {
            key: self.key@,
            version: self.version,
            content: self.content@,
            comment: self.comment@,
        }
    }
}

impl Line {
    /// A line with the given parts.
    pub fn new(key: &str, version: u8, content: &str, comment: &str) -> (line: Self)
        ensures
            line@ == (LineView { key: key@, version, content: content@, comment: comment@ }),
    {
        Self {
            key: String::from_str(key),
            version,
            content: String::from_str(content),
            comment: String::from_str(comment),
        }
    }

    /// The key of the line.
    pub fn key(&self) -> (key: &str)
        ensures
            key@ == self@.key,
    {
        self.key.as_str()
    }

    /// The version stamp of the line.
    pub fn version(&self) -> (version: u8)
        ensures
            version == self@.version,
    {
        self.version
    }

    /// The text of the line.
    pub fn content(&self) -> (content: &str)
        ensures
            content@ == self@.content,
    {
        self.content.as_str()
    }

    /// The comment of the line.
    pub fn comment(&self) -> (comment: &str)
        ensures
            comment@ == self@.comment,
    {
        self.comment.as_str()
    }
}

/// The views of a sequence of lines, in order.
pub open spec fn line_views(lines: Seq<Line>) -> Seq<LineView> {
    lines.map_values(|line: Line| line@)
}

/// What a localization file holds: the base name it shares with the files of
/// the other languages, its language, and its lines in order.
pub struct YMLFileView {
    pub name: Seq<char>,
    pub language: Language,
    pub lines: Seq<LineView>,
}

impl YMLFileView {
    /// The name of the file on disk: `<name>_l_<language>.yml`.
    pub open spec fn file_name(self) -> Seq<char> {
        self.name + "_l_"@ + self.language.name_spec() + ".yml"@
    }
}

/// One localization file of the game, in one language.
#[derive(Debug)]
pub struct YMLFile {
    name: String,
    language: Language,
    lines: Vec<Line>,
}

impl View for YMLFile {
    type V = YMLFileView;

    closed spec fn view(&self) -> YMLFileView {
        YMLFileView { name: self.name@, language: self.language, lines: line_views(self.lines@) }
    }
}

/// The views of a sequence of files, in order.
pub open spec fn file_views(files: Seq<YMLFile>) -> Seq<YMLFileView> {
    files.map_values(|file: YMLFile| file@)
}

impl YMLFile {
    /// A file without lines, with room for `num_lines` of them.
    pub fn new(name: &str, language: &Language, num_lines: usize) -> (file: Self)
        ensures
            file@ == (YMLFileView { name: name@, language: *language, lines: Seq::empty() }),
    {
        let file = Self {
            name: String::from_str(name),
            language: *language,
            lines: Vec::with_capacity(num_lines),
        };
        assert(line_views(file.lines@) =~= Seq::empty());
        file
    }

    /// The file of a localization set for one language.
    pub fn for_language(loc: &Localization, language: &Language) -> (file: Self)
        ensures
            file@ == file_of(loc@, *language),
    {
        let entries = loc.entries();
        let mut file = YMLFile::new(loc.name(), language, entries.len());
        assert(file@.lines.len() == file.lines@.len());
        let mut i: usize = 0;
        while i < entries.len()
            invariant
                i <= entries.len(),
                entry_views(entries@) == loc@.entries,
                file.name@ == loc@.name,
                file.language == *language,
                file.lines@.len() == i,
                forall|k: int| 0 <= k < i ==> file.lines@[k]@ == line_of(entries@[k]@, *language),
            decreases entries.len() - i,
        {
            let entry = &entries[i];
            file.lines.push(
                Line::new(entry.key(), entry.version(), entry.content_of(language), entry.comment()),
            );
            i += 1;
        }
        assert(file@.lines =~= file_of(loc@, *language).lines);
        file
    }

    /// The name of the file on disk: `<name>_l_<language>.yml`.
    pub fn file_name(&self) -> (file_name: String)
        ensures
            file_name@ == self@.file_name(),
    {
        let mut file_name = concat2(self.name.as_str(), "_l_");
        file_name.append(self.language.as_str());
        file_name.append(".yml");
        file_name
    }

    /// The base name the file shares with the files of the other languages.
    pub fn name(&self) -> (name: &str)
        ensures
            name@ == self@.name,
    {
        self.name.as_str()
    }

    /// The language of the file.
    pub fn language(&self) -> (language: Language)
        ensures
            language == self@.language,
    {
        self.language
    }

    /// The lines of the file, in order.
    pub fn lines(&self) -> (lines: &Vec<Line>)
        ensures
            line_views(lines@) == self@.lines,
    {
        &self.lines
    }
}

/// The line that an entry is written as in a file of the given language: the
/// entry's key, version and comment, and its text in that language.
pub open spec fn line_of(entry: EntryView, language: Language) -> LineView {
    LineView {
        key: entry.key,
        version: entry.version,
        content: entry.content_of(language),
        comment: entry.comment,
    }
}

/// The file of a localization set for one language: one line for each entry,
/// in the order of the entries.
pub open spec fn file_of(loc: LocalizationView, language: Language) -> YMLFileView {
    YMLFileView {
        name: loc.name,
        language,
        lines: loc.entries.map_values(|entry: EntryView| line_of(entry, language)),
    }
}

/// The files of a localization set: one for each of its languages, in the
/// order of the languages.
pub open spec fn files_of(loc: LocalizationView) -> Seq<YMLFileView> {
    loc.languages.map_values(|language: Language| file_of(loc, language))
}

/// The files of a localization set: one for each of its languages, in the
/// order of the languages, each with one line for each entry, in the order of
/// the entries.
pub fn files_for(loc: &Localization) -> (files: Vec<YMLFile>)
    ensures
        file_views(files@) == files_of(loc@),
        files@.len() == loc@.languages.len(),
{
    let languages = loc.lang();
    let mut files: Vec<YMLFile> = Vec::with_capacity(languages.len());
    let mut i: usize = 0;
    while i < languages.len()
        invariant
            i <= languages.len(),
            languages@ == loc@.languages,
            files@.len() == i,
            forall|k: int| 0 <= k < i ==> files@[k]@ == file_of(loc@, languages@[k]),
        decreases languages.len() - i,
    {
        files.push(YMLFile::for_language(loc, &languages[i]));
        i += 1;
    }
    assert(file_views(files@) =~= files_of(loc@));
    files
}

/// The parts of the path a file is stored under: the localization root, then
/// the directory of the language, the directory of the set, and the file
/// name.
pub open spec fn destination_of(root: Seq<Seq<char>>, path: Seq<char>, file: YMLFileView) -> Seq<
    Seq<char>,
> {
    root + seq![file.language.name_spec(), path, file.file_name()]
}

/// A localization set is stored as one file for each of its languages, in the
/// order of the languages. Each file bears the name of the set and has one
/// line for each entry of the set, in the order of the entries; the line holds
/// the entry's key, version and comment, and its text in the language of the
/// file.
pub proof fn law_files_mirror_the_set(loc: LocalizationView)
    ensures
        files_of(loc).len() == loc.languages.len(),
        forall|i: int|
            0 <= i < loc.languages.len() ==> {
                &&& (#[trigger] files_of(loc)[i]).language == loc.languages[i]
                &&& files_of(loc)[i].name == loc.name
                &&& files_of(loc)[i].lines.len() == loc.entries.len()
                &&& forall|j: int|
                    0 <= j < loc.entries.len() ==> #[trigger] files_of(loc)[i].lines[j] == line_of(
                        loc.entries[j],
                        loc.languages[i],
                    )
            },
{
}

/// Files of one set in different languages bear different names.
pub proof fn lemma_file_names_differ(a: YMLFileView, b: YMLFileView)
    requires
        a.name == b.name,
        a.language != b.language,
    ensures
        a.file_name() != b.file_name(),
{
    if a.file_name() == b.file_name() {
        let tail_a = "_l_"@ + a.language.name_spec() + ".yml"@;
        let tail_b = "_l_"@ + b.language.name_spec() + ".yml"@;
        let n = a.name.len() as int;
        assert(a.file_name() =~= a.name + tail_a);
        assert(b.file_name() =~= a.name + tail_b);
        assert(tail_a =~= a.file_name().subrange(n, a.file_name().len() as int));
        assert(tail_b =~= b.file_name().subrange(n, b.file_name().len() as int));
        let m = "_l_"@.len() as int;
        let k = a.language.name_spec().len() as int;
        assert(tail_a.len() == tail_b.len());
        assert(a.language.name_spec() =~= tail_a.subrange(m, m + k));
        assert(b.language.name_spec() =~= tail_b.subrange(m, m + k));
        lemma_names_distinct(a.language, b.language);
    }
}

/// Files of different languages go to different places, whatever the root
/// and the output directory.
pub proof fn lemma_destinations_differ(
    root: Seq<Seq<char>>,
    path: Seq<char>,
    a: YMLFileView,
    b: YMLFileView,
)
    requires
        a.language != b.language,
    ensures
        destination_of(root, path, a) != destination_of(root, path, b),
{
    let at = root.len() as int;
    assert(destination_of(root, path, a)[at] == a.language.name_spec());
    assert(destination_of(root, path, b)[at] == b.language.name_spec());
    lemma_names_distinct(a.language, b.language);
}

/// No two files of a localization set go to the same place or bear the same
/// name: a set in `n` languages is stored as `n` files.
pub proof fn law_one_file_per_language(root: Seq<Seq<char>>, loc: LocalizationView)
    requires
        loc.languages.no_duplicates(),
    ensures
        forall|i: int, j: int|
            0 <= i < j < files_of(loc).len() ==> {
                &&& files_of(loc)[i].file_name() != files_of(loc)[j].file_name()
                &&& destination_of(root, loc.path, files_of(loc)[i]) != destination_of(
                    root,
                    loc.path,
                    files_of(loc)[j],
                )
            },
{
    assert forall|i: int, j: int| 0 <= i < j < files_of(loc).len() implies {
        &&& files_of(loc)[i].file_name() != files_of(loc)[j].file_name()
        &&& destination_of(root, loc.path, files_of(loc)[i]) != destination_of(
            root,
            loc.path,
            files_of(loc)[j],
        )
    } by {
        lemma_file_names_differ(files_of(loc)[i], files_of(loc)[j]);
        lemma_destinations_differ(root, loc.path, files_of(loc)[i], files_of(loc)[j]);
    }
}

/// What the template is given for one line: an object with the fields `key`,
/// `version`, `content` and `comment`.
pub open spec fn line_json(line: LineView) -> Json {
    Json::Object(
        no_fields().insert("key"@, Json::Text(line.key)).insert(
            "version"@,
            Json::Number(line.version as int),
        ).insert("content"@, Json::Text(line.content)).insert("comment"@, Json::Text(line.comment)),
    )
}

/// What the template is given for one file: the name of the language under
/// `language`, and the lines in order under `lines`.
pub open spec fn file_context(file: YMLFileView) -> Map<Seq<char>, Json> {
    no_fields().insert("language"@, Json::Text(file.language.name_spec())).insert(
        "lines"@,
        Json::Array(file.lines.map_values(|line: LineView| line_json(line))),
    )
}

/// The value that stands for a line in the context of the template.
fn line_value(line: &Line) -> (value: tera::Value)
    ensures
        value_json(value) == line_json(line@),
{
    let mut fields: Vec<(String, tera::Value)> = Vec::with_capacity(4);
    fields.push((String::from_str("key"), text_value(line.key())));
    fields.push((String::from_str("version"), number_value(line.version())));
    fields.push((String::from_str("content"), text_value(line.content())));
    fields.push((String::from_str("comment"), text_value(line.comment())));
    proof {
        reveal_strlit("key");
        reveal_strlit("version");
        reveal_strlit("content");
        reveal_strlit("comment");
        assert("version"@[0] != "content"@[0]);
        assert("version"@[0] != "comment"@[0]);
        assert("content"@[2] != "comment"@[2]);
        let all = fields@;
        let three = all.drop_last();
        let two = three.drop_last();
        let one = two.drop_last();
        assert(one.drop_last().len() == 0);
        reveal_with_fuel(fields_json, 2);
        assert(fields_json(one) == no_fields().insert("key"@, Json::Text(line@.key)));
        assert(fields_json(two) == fields_json(one).insert(
            "version"@,
            Json::Number(line@.version as int),
        ));
        assert(fields_json(three) == fields_json(two).insert("content"@, Json::Text(line@.content)));
        assert(fields_json(all) == fields_json(three).insert("comment"@, Json::Text(line@.comment)));
    }
    object_value(fields)
}

/// The context the template of a file is rendered over.
pub fn context_for(file: &YMLFile) -> (context: tera::Context)
    ensures
        context_json(context) == file_context(file@),
{
    let mut rows: Vec<tera::Value> = Vec::with_capacity(file.lines.len());
    let mut i: usize = 0;
    while i < file.lines.len()
        invariant
            i <= file.lines.len(),
            rows@.len() == i,
            forall|k: int| 0 <= k < i ==> value_json(rows@[k]) == line_json(file.lines@[k]@),
        decreases file.lines.len() - i,
    {
        rows.push(line_value(&file.lines[i]));
        i += 1;
    }
    assert(values_json(rows@) =~= file@.lines.map_values(|line: LineView| line_json(line)));
    let language = text_value(file.language.as_str());
    let lines = array_value(rows);
    let mut context = new_context();
    context_insert(&mut context, "language", &language);
    context_insert(&mut context, "lines", &lines);
    context
}

/// The name of the template every file is rendered by.
pub open spec fn template_name_spec() -> Seq<char> {
    "loc.yml"@
}

/// The name of the template every file is rendered by.
pub fn template_name() -> (name: &'static str)
    ensures
        name@ == template_name_spec(),
{
    "loc.yml"
}

/// What a file on its way to disk holds.
pub struct FileOutputView {
    pub path: Seq<Seq<char>>,
    pub bytes: Seq<u8>,
}

/// A file as it goes to disk: the parts of its path, outermost first, and its
/// bytes.
#[derive(Debug)]
pub struct FileOutput {
    pub path: Vec<String>,
    pub bytes: Vec<u8>,
}

impl View for FileOutput {
    type V = FileOutputView;

    open spec fn view(&self) -> FileOutputView {
        FileOutputView { path: self.path.deep_view(), bytes: self.bytes@ }
    }
}

/// What a request to the template engine holds.
pub struct RenderRequestView {
    pub template: Seq<char>,
    pub context: Map<Seq<char>, Json>,
}

/// A request to the template engine: render the template of this name over
/// this context.
#[derive(Debug)]
pub struct RenderRequest {
    pub template: String,
    pub context: tera::Context,
}

impl View for RenderRequest {
    type V = RenderRequestView;

    open spec fn view(&self) -> RenderRequestView {
        RenderRequestView { template: self.template@, context: context_json(self.context) }
    }
}

/// The request that has `file` rendered.
pub open spec fn request_of(file: YMLFileView) -> RenderRequestView {
    RenderRequestView { template: template_name_spec(), context: file_context(file) }
}

/// The request that has `file` rendered: the template `loc.yml` over the
/// context of the file.
pub fn render_request(file: &YMLFile) -> (request: RenderRequest)
    ensures
        request@ == request_of(file@),
{
    RenderRequest { template: String::from_str(template_name()), context: context_for(file) }
}

/// What the template engine answered, with a text as its characters.
pub open spec fn rendered_view(rendered: Result<String, tera::Error>) -> Result<
    Seq<char>,
    tera::Error,
> {
    match rendered {
        Ok(text) => Ok(text@),
        Err(error) => Err(error),
    }
}

/// What came of a file, by what it holds.
pub open spec fn output_view(output: Result<FileOutput, LocError>) -> Result<
    FileOutputView,
    LocErrorView,
> {
    match output {
        Ok(file) => Ok(file@),
        Err(error) => Err(error@),
    }
}

/// What becomes of a file once the template has run: a rendered text is
/// stored under `destination` behind the UTF-8 marker, and a failure of the
/// template is handed on as it came.
pub open spec fn finished(destination: Seq<Seq<char>>, rendered: Result<Seq<char>, tera::Error>) -> Result<
    FileOutputView,
    LocErrorView,
> {
    match rendered {
        Ok(text) => Ok(FileOutputView { path: destination, bytes: marked_bytes(text) }),
        Err(error) => Err(LocErrorView::RenderFailure(error)),
    }
}

/// What becomes of a file once the template has run: the rendered text is
/// stored under `destination` behind the UTF-8 marker, and a failure of the
/// template is handed on as it came.
pub fn finish_file(destination: Vec<String>, rendered: Result<String, tera::Error>) -> (output:
    Result<FileOutput, LocError>)
    ensures
        output_view(output) == finished(destination.deep_view(), rendered_view(rendered)),
        output matches Ok(file) ==> file.path == destination,
{
    match rendered {
        Ok(text) => Ok(FileOutput { path: destination, bytes: with_bom(text.as_str()) }),
        Err(error) => Err(LocError::RenderFailure(error)),
    }
}

/// A store of localization files below one directory, rendered by one
/// template engine.
pub struct Repository<'a> {
    localization_root: Vec<String>,
    tmpl: &'a tera::Tera,
}

impl<'a> Repository<'a> {
    /// The parts of the directory the files are stored below.
    pub closed spec fn root(&self) -> Seq<Seq<char>> {
        self.localization_root.deep_view()
    }

    /// The template engine the files are rendered by.
    pub closed spec fn engine(&self) -> tera::Tera {
        *self.tmpl
    }

    /// A store below `localization_root` whose files are rendered by `tmpl`.
    pub fn new(localization_root: Vec<String>, tmpl: &'a tera::Tera) -> (repo: Repository<'a>)
        ensures
            repo.root() == localization_root.deep_view(),
            repo.engine() == *tmpl,
    {
        Self { localization_root, tmpl }
    }

    /// The template engine the files are rendered by.
    pub fn tmpl(&self) -> (tmpl: &'a tera::Tera)
        ensures
            *tmpl == self.engine(),
    {
        self.tmpl
    }

    /// The parts of the path that `file` of a set with the output directory
    /// `path` is stored under.
    pub fn destination(&self, path: &str, file: &YMLFile) -> (parts: Vec<String>)
        ensures
            parts.deep_view() == destination_of(self.root(), path@, file@),
    {
        let root = &self.localization_root;
        let mut parts: Vec<String> = Vec::with_capacity(root.len());
        let mut i: usize = 0;
        while i < root.len()
            invariant
                i <= root.len(),
                parts@.len() == i,
                forall|k: int| 0 <= k < i ==> parts@[k]@ == root@[k]@,
            decreases root.len() - i,
        {
            parts.push(root[i].clone());
            i += 1;
        }
        parts.push(file.language.to_string());
        parts.push(String::from_str(path));
        parts.push(file.file_name());
        assert(parts.deep_view() =~= destination_of(self.root(), path@, file@));
        parts
    }

    /// Makes `file` of a set with the output directory `path` ready for disk,
    /// given what the template engine made of it: a rendered text is framed
    /// and put under the destination of the file, a failure of the template
    /// is handed on.
    pub fn prepare_file(
        &self,
        path: &str,
        file: &YMLFile,
        rendered: Result<String, tera::Error>,
    ) -> (output: Result<FileOutput, LocError>)
        ensures
            output_view(output) == finished(
                destination_of(self.root(), path@, file@),
                rendered_view(rendered),
            ),
    {
        let destination = self.destination(path, file);
        finish_file(destination, rendered)
    }

    /// Reading a set back from its files is not implemented.
    pub fn load_localization(&self, _path: &str, _lang: &[Language], _name: &str) -> (loaded: Result<
        Localization,
        LocError,
    >)
        ensures
            loaded matches Err(LocError::NotImplemented),
    {
        Err(LocError::NotImplemented)
    }
}

/// The message of a failed write: it names the operation and the path.
pub open spec fn write_failure_message(path: Seq<char>) -> Seq<char> {
    "write file "@ + path + " failed."@
}

/// What an event of a save holds.
pub enum SaveEventView {
    Ready,
    Rendered(Result<Seq<char>, tera::Error>),
    WriteFailed { path: Seq<char>, cause: Seq<char> },
}

/// What happened since the last step of a save.
#[derive(Debug)]
pub enum SaveEvent {
    /// Nothing is pending: the save begins, or the file that was handed out
    /// last has been written.
    Ready,
    /// The template engine has answered the request that was handed out
    /// last.
    Rendered(Result<String, tera::Error>),
    /// The file that was handed out last could not be written to `path`;
    /// `cause` is what the file system reported.
    WriteFailed { path: String, cause: String },
}

impl View for SaveEvent {
    type V = SaveEventView;

    open spec fn view(&self) -> SaveEventView {
        match *self {
            SaveEvent::Ready => SaveEventView::Ready,
            SaveEvent::Rendered(rendered) => SaveEventView::Rendered(rendered_view(rendered)),
            SaveEvent::WriteFailed { path, cause } => SaveEventView::WriteFailed {
                path: path@,
                cause: cause@,
            },
        }
    }
}

/// What a step of a save holds.
pub enum SaveStepView {
    Render(RenderRequestView),
    Write(FileOutputView),
    Done,
    Failed(LocErrorView),
}

/// What a save asks for next.
#[derive(Debug)]
pub enum SaveStep {
    /// Have the template engine answer this request, then come back with the
    /// answer.
    Render(RenderRequest),
    /// Write this file, creating the directories above it, then come back.
    Write(FileOutput),
    /// Every file has been written.
    Done,
    /// The save has failed; files written before stay as they are.
    Failed(LocError),
}

impl View for SaveStep {
    type V = SaveStepView;

    open spec fn view(&self) -> SaveStepView {
        match *self {
            SaveStep::Render(request) => SaveStepView::Render(request@),
            SaveStep::Write(file) => SaveStepView::Write(file@),
            SaveStep::Done => SaveStepView::Done,
            SaveStep::Failed(error) => SaveStepView::Failed(error@),
        }
    }
}

/// What a save in progress holds: the output directory of the set and the
/// files that are still to be written, in order.
pub struct SaveJobView {
    pub path: Seq<char>,
    pub pending: Seq<YMLFileView>,
}

impl SaveJobView {
    /// The save of a set, with all its files still to be written.
    pub open spec fn of(loc: LocalizationView) -> SaveJobView {
        SaveJobView { path: loc.path, pending: files_of(loc) }
    }

    /// The save with nothing left to write.
    pub open spec fn ended(self) -> SaveJobView {
        SaveJobView { path: self.path, pending: Seq::empty() }
    }

    /// The save with its first pending file behind it.
    pub open spec fn advanced(self) -> SaveJobView {
        SaveJobView { path: self.path, pending: self.pending.skip(1) }
    }

    /// How a save below `root` goes on after `event`: the save as it is
    /// afterwards, and the step it asks for.
    ///
    /// - At the start and after a write, the first pending file is to be
    ///   rendered; with no file pending the save is done.
    /// - A rendered text is framed and is to be written to the destination
    ///   of the first pending file, which is then behind the save.
    /// - A rendered text that no file is pending for changes nothing: the
    ///   save is done.
    /// - A failure of the template or of a write ends the save with that
    ///   failure, and nothing stays pending.
    pub open spec fn next(self, root: Seq<Seq<char>>, event: SaveEventView) -> (
        SaveJobView,
        SaveStepView,
    ) {
        match event {
            SaveEventView::WriteFailed { path, cause } => (
                self.ended(),
                SaveStepView::Failed(
                    LocErrorView::IoFailure { message: write_failure_message(path), cause },
                ),
            ),
            SaveEventView::Rendered(Err(error)) => (
                self.ended(),
                SaveStepView::Failed(LocErrorView::RenderFailure(error)),
            ),
            SaveEventView::Rendered(Ok(text)) => if self.pending.len() > 0 {
                (
                    self.advanced(),
                    SaveStepView::Write(
                        FileOutputView {
                            path: destination_of(root, self.path, self.pending[0]),
                            bytes: marked_bytes(text),
                        },
                    ),
                )
            } else {
                (self, SaveStepView::Done)
            },
            SaveEventView::Ready => if self.pending.len() > 0 {
                (self, SaveStepView::Render(request_of(self.pending[0])))
            } else {
                (self, SaveStepView::Done)
            },
        }
    }
}

impl SaveJobView {
    /// The steps of a save below `root` from here on, in a run in which the
    /// template engine answers with `texts`, one after the other, and every
    /// write succeeds: a request, then a write, for each text, and the step
    /// that follows the last write.
    pub open spec fn steps(self, root: Seq<Seq<char>>, texts: Seq<Seq<char>>) -> Seq<SaveStepView>
        decreases texts.len(),
    {
        let asked = self.next(root, SaveEventView::Ready);
        if texts.len() == 0 {
            seq![asked.1]
        } else {
            let answered = asked.0.next(root, SaveEventView::Rendered(Ok(texts[0])));
            seq![asked.1, answered.1] + answered.0.steps(root, texts.skip(1))
        }
    }
}

/// Where the template engine answers every request and every write succeeds,
/// a save asks for each pending file in turn to be rendered and then to be
/// written, and is done after the last: the request is that of the file, the
/// write goes to the destination of the file and holds the text the engine
/// gave for it behind the UTF-8 marker, and nothing else is asked for.
pub proof fn lemma_steps_of_a_save(job: SaveJobView, root: Seq<Seq<char>>, texts: Seq<Seq<char>>)
    requires
        texts.len() == job.pending.len(),
    ensures
        job.steps(root, texts).len() == 2 * texts.len() + 1,
        forall|i: int|
            0 <= i < texts.len() ==> {
                &&& #[trigger] job.steps(root, texts)[2 * i] == SaveStepView::Render(
                    request_of(job.pending[i]),
                )
                &&& job.steps(root, texts)[2 * i + 1] == SaveStepView::Write(
                    FileOutputView {
                        path: destination_of(root, job.path, job.pending[i]),
                        bytes: marked_bytes(texts[i]),
                    },
                )
            },
        job.steps(root, texts).last() == SaveStepView::Done,
    decreases texts.len(),
{
    if texts.len() > 0 {
        let rest = job.advanced();
        let later = rest.steps(root, texts.skip(1));
        lemma_steps_of_a_save(rest, root, texts.skip(1));
        let all = job.steps(root, texts);
        assert(all.len() == later.len() + 2);
        assert forall|i: int| 0 <= i < texts.len() implies {
            &&& #[trigger] all[2 * i] == SaveStepView::Render(request_of(job.pending[i]))
            &&& all[2 * i + 1] == SaveStepView::Write(
                FileOutputView {
                    path: destination_of(root, job.path, job.pending[i]),
                    bytes: marked_bytes(texts[i]),
                },
            )
        } by {
            if i > 0 {
                assert(all[2 * i] == later[2 * (i - 1)]);
                assert(all[2 * i + 1] == later[2 * (i - 1) + 1]);
                assert(rest.pending[i - 1] == job.pending[i]);
                assert(texts.skip(1)[i - 1] == texts[i]);
            }
        }
        assert(all.last() == later.last());
    }
}

/// A localization set in `n` languages is saved as `n` files, one for each
/// language in the order of the languages. Where the template engine answers
/// every request and every write succeeds, the save asks, for each language
/// in turn, for the file of that language to be rendered (its lines being
/// one for each entry, in the order of the entries) and then to be written
/// to `<root>/<language>/<path>/<name>_l_<language>.yml`; after the last
/// file it is done. No other rendering and no other write is asked for.
pub proof fn law_save_writes_one_file_per_language(
    root: Seq<Seq<char>>,
    loc: LocalizationView,
    texts: Seq<Seq<char>>,
)
    requires
        texts.len() == loc.languages.len(),
    ensures
        SaveJobView::of(loc).steps(root, texts).len() == 2 * loc.languages.len() + 1,
        forall|i: int|
            0 <= i < loc.languages.len() ==> {
                &&& #[trigger] SaveJobView::of(loc).steps(root, texts)[2 * i]
                    == SaveStepView::Render(request_of(file_of(loc, loc.languages[i])))
                &&& SaveJobView::of(loc).steps(root, texts)[2 * i + 1] == SaveStepView::Write(
                    FileOutputView {
                        path: root + seq![
                            loc.languages[i].name_spec(),
                            loc.path,
                            loc.name + "_l_"@ + loc.languages[i].name_spec() + ".yml"@,
                        ],
                        bytes: marked_bytes(texts[i]),
                    },
                )
                &&& file_of(loc, loc.languages[i]).lines.len() == loc.entries.len()
                &&& forall|j: int|
                    0 <= j < loc.entries.len() ==> #[trigger] file_of(
                        loc,
                        loc.languages[i],
                    ).lines[j] == line_of(loc.entries[j], loc.languages[i])
            },
        SaveJobView::of(loc).steps(root, texts).last() == SaveStepView::Done,
{
    lemma_steps_of_a_save(SaveJobView::of(loc), root, texts);
}

/// The saving of one localization set, file by file. Whoever runs it renders
/// and writes as it is asked and reports back; the job decides what comes
/// next.
#[derive(Debug)]
pub struct SaveJob {
    path: String,
    files: Vec<YMLFile>,
    next: usize,
}

impl View for SaveJob {
    type V = SaveJobView;

    closed spec fn view(&self) -> SaveJobView {
        SaveJobView { path: self.path@, pending: file_views(self.files@).skip(self.next as int) }
    }
}

impl SaveJob {
    #[verifier::type_invariant]
    spec fn next_is_in_range(self) -> bool {
        self.next <= self.files@.len()
    }

    /// The saving of `loc`, with all its files still to be written.
    pub fn new(loc: &Localization) -> (job: SaveJob)
        ensures
            job@ == SaveJobView::of(loc@),
    {
        let job = SaveJob { path: String::from_str(loc.path()), files: files_for(loc), next: 0 };
        assert(file_views(job.files@).skip(0) =~= file_views(job.files@));
        job
    }

    /// Takes the save one step further, as `SaveJobView::next` says.
    pub fn step(&mut self, repo: &Repository, event: SaveEvent) -> (step: SaveStep)
        ensures
            final(self)@ == old(self)@.next(repo.root(), event@).0,
            step@ == old(self)@.next(repo.root(), event@).1,
    {
        proof {
            use_type_invariant(&*self);
        }
        let ghost before = self@;
        match event {
            SaveEvent::WriteFailed { path, cause } => {
                self.next = self.files.len();
                assert(self@.pending =~= before.ended().pending);
                SaveStep::Failed(
                    LocError::IoFailure {
                        message: concat3("write file ", path.as_str(), " failed."),
                        cause,
                    },
                )
            },
            SaveEvent::Rendered(rendered) => {
                if self.next < self.files.len() {
                    assert(before.pending[0] == self.files@[self.next as int]@);
                    match repo.prepare_file(self.path.as_str(), &self.files[self.next], rendered) {
                        Ok(out) => {
                            self.next = self.next + 1;
                            assert(self@.pending =~= before.advanced().pending);
                            SaveStep::Write(out)
                        },
                        Err(error) => {
                            self.next = self.files.len();
                            assert(self@.pending =~= before.ended().pending);
                            SaveStep::Failed(error)
                        },
                    }
                } else {
                    assert(before.pending.len() == 0);
                    match rendered {
                        Ok(_) => SaveStep::Done,
                        Err(error) => {
                            assert(self@.pending =~= before.ended().pending);
                            SaveStep::Failed(LocError::RenderFailure(error))
                        },
                    }
                }
            },
            SaveEvent::Ready => {
                if self.next < self.files.len() {
                    assert(before.pending[0] == self.files@[self.next as int]@);
                    SaveStep::Render(render_request(&self.files[self.next]))
                } else {
                    assert(before.pending.len() == 0);
                    SaveStep::Done
                }
            },
        }
    }
}

} // verus!
