//! An in-memory document: a table of registered objects and a list of pages,
//! each with its decoded operators and its XObject resources; and the two
//! operations that register an XObject and place it on a page.
use crate::content::{
    form_spliced, image_spliced, invoke_op, resource_names_distinct, restore_op, save_op,
    transform_op, operations_view, resource_name, resource_name_of, splice_form,
    splice_image, Operation, OperationView, Real,
};
use crate::stream::{Stream, StreamView};
use vstd::prelude::*;

verus! {

/// An object number and a generation number.
pub type ObjectId = (u32, u16);

/// Why an XObject could not be placed.
#[derive(Clone, Copy, Debug, PartialEq, Eq, Structural)]
pub enum EmbedError {
    /// No page of the document has the given id.
    PageNotFound,
}

/// A page: its id, its decoded content operators, and its XObject
/// resources as (name, object) entries in the order they were added.
#[derive(Debug)]
pub struct Page {
    pub id: ObjectId,
    pub content: Vec<Operation>,
    pub xobjects: Vec<(Vec<u8>, ObjectId)>,
}

/// The mathematical value of a [`Page`].
pub struct PageView {
    pub id: ObjectId,
    pub content: Seq<OperationView>,
    pub xobjects: Seq<(Seq<u8>, ObjectId)>,
}

impl View for Page {
    type V = PageView;

    open spec fn view(&self) -> PageView {
        PageView {
            id: self.id,
            content: operations_view(self.content@),
            xobjects: self.xobjects@.map_values(|e: (Vec<u8>, ObjectId)| (e.0@, e.1)),
        }
    }
}

/// A document: the highest object number handed out so far, the registered
/// XObject streams with their ids, and the pages.
#[derive(Debug)]
pub struct Document {
    pub max_id: u32,
    pub objects: Vec<(ObjectId, Stream)>,
    pub pages: Vec<Page>,
}

/// The mathematical value of a [`Document`].
pub struct DocumentView {
    pub max_id: nat,
    pub objects: Seq<(ObjectId, StreamView)>,
    pub pages: Seq<PageView>,
}

impl View for Document {
    type V = DocumentView;

    open spec fn view(&self) -> DocumentView {
        DocumentView {
            max_id: self.max_id as nat,
            objects: self.objects@.map_values(|e: (ObjectId, Stream)| (e.0, e.1@)),
            pages: self.pages@.map_values(|p: Page| p@),
        }
    }
}

/// The id that the next registered object receives.
pub open spec fn next_id(d: DocumentView) -> ObjectId {
    ((d.max_id + 1) as u32, 0u16)
}

/// The resource name of the next registered object.
pub open spec fn next_name(d: DocumentView) -> Seq<u8> {
    resource_name_of(d.max_id + 1)
}

/// Some page of `pages` has id `id`.
pub open spec fn has_page(pages: Seq<PageView>, id: ObjectId) -> bool {
    exists|i: int| 0 <= i < pages.len() && #[trigger] pages[i].id == id
}

/// `i` is the first page of `pages` with id `id`.
pub open spec fn is_first_page(pages: Seq<PageView>, id: ObjectId, i: int) -> bool {
    0 <= i < pages.len() && pages[i].id == id && forall|j: int| 0 <= j < i ==> #[trigger] pages[j].id != id
}

/// `after` is `before` with `obj` registered under the next id, page `i`
/// (the first with id `page_id`) given the operators `content`, and the
/// next name filed in that page's resources for the new object.
pub open spec fn registered_and_placed(
    before: DocumentView,
    page_id: ObjectId,
    obj: StreamView,
    i: int,
    content: Seq<OperationView>,
    after: DocumentView,
) -> bool {
    &&& is_first_page(before.pages, page_id, i)
    &&& after.max_id == before.max_id + 1
    &&& after.objects == before.objects.push((next_id(before), obj))
    &&& after.pages == before.pages.update(
        i,
        PageView {
            id: page_id,
            content,
            xobjects: before.pages[i].xobjects.push((next_name(before), next_id(before))),
        },
    )
}

/// `after` is `before` with the image `obj` registered and placed at
/// `position`, scaled to `size`, on the page with id `page_id`.
pub open spec fn image_placed(
    before: DocumentView,
    page_id: ObjectId,
    obj: StreamView,
    position: (Real, Real),
    size: (Real, Real),
    after: DocumentView,
) -> bool {
    exists|i: int|
        #[trigger] is_first_page(before.pages, page_id, i) && registered_and_placed(
            before,
            page_id,
            obj,
            i,
            image_spliced(before.pages[i].content, next_name(before), position, size),
            after,
        )
}

/// `after` is `before` with the form `obj` registered and placed on the page
/// with id `page_id`.
pub open spec fn form_placed(
    before: DocumentView,
    page_id: ObjectId,
    obj: StreamView,
    after: DocumentView,
) -> bool {
    exists|i: int|
        #[trigger] is_first_page(before.pages, page_id, i) && registered_and_placed(
            before,
            page_id,
            obj,
            i,
            form_spliced(before.pages[i].content, next_name(before)),
            after,
        )
}

proof fn same_first_page(before: DocumentView, page_id: ObjectId, obj: StreamView, i: int, content: Seq<OperationView>, after: DocumentView, j: int)
    requires
        registered_and_placed(before, page_id, obj, i, content, after),
        is_first_page(after.pages, page_id, j),
    ensures
        i == j,
{
    if j < i {
        assert(after.pages[j] == before.pages[j]);
    } else if j > i {
        assert(after.pages[i].id == page_id);
    }
}

/// Placing an image twice on a page is not idempotent: two objects are
/// registered, under distinct ids and distinct names, the page's operators
/// get two invocation sequences one after the other, and its resources get
/// two entries.
pub proof fn placing_an_image_twice(
    d0: DocumentView,
    d1: DocumentView,
    d2: DocumentView,
    page_id: ObjectId,
    a: StreamView,
    b: StreamView,
    position_a: (Real, Real),
    size_a: (Real, Real),
    position_b: (Real, Real),
    size_b: (Real, Real),
)
    requires
        d1.max_id < u32::MAX,
        image_placed(d0, page_id, a, position_a, size_a, d1),
        image_placed(d1, page_id, b, position_b, size_b, d2),
    ensures
        d2.objects == d0.objects + seq![(next_id(d0), a), (next_id(d1), b)],
        next_id(d0) != next_id(d1),
        next_name(d0) != next_name(d1),
        exists|i: int|
            #[trigger] is_first_page(d0.pages, page_id, i) && d2.pages[i].content == d0.pages[i].content
                + seq![
                save_op(),
                transform_op(position_a, size_a),
                invoke_op(next_name(d0)),
                restore_op(),
                save_op(),
                transform_op(position_b, size_b),
                invoke_op(next_name(d1)),
                restore_op(),
            ] && d2.pages[i].xobjects == d0.pages[i].xobjects + seq![
                (next_name(d0), next_id(d0)),
                (next_name(d1), next_id(d1)),
            ],
{
    let i = choose|i: int|
        #[trigger] is_first_page(d0.pages, page_id, i) && registered_and_placed(
            d0,
            page_id,
            a,
            i,
            image_spliced(d0.pages[i].content, next_name(d0), position_a, size_a),
            d1,
        );
    let j = choose|j: int|
        #[trigger] is_first_page(d1.pages, page_id, j) && registered_and_placed(
            d1,
            page_id,
            b,
            j,
            image_spliced(d1.pages[j].content, next_name(d1), position_b, size_b),
            d2,
        );
    same_first_page(d0, page_id, a, i, image_spliced(d0.pages[i].content, next_name(d0), position_a, size_a), d1, j);
    resource_names_distinct(d0.max_id + 1, d1.max_id + 1);
    assert(d2.objects =~= d0.objects + seq![(next_id(d0), a), (next_id(d1), b)]);
    assert(d2.pages[i].content =~= d0.pages[i].content + seq![
        save_op(),
        transform_op(position_a, size_a),
        invoke_op(next_name(d0)),
        restore_op(),
        save_op(),
        transform_op(position_b, size_b),
        invoke_op(next_name(d1)),
        restore_op(),
    ]);
    assert(d2.pages[i].xobjects =~= d0.pages[i].xobjects + seq![
        (next_name(d0), next_id(d0)),
        (next_name(d1), next_id(d1)),
    ]);
}

/// Placing a form twice on a page is not idempotent: two objects are
/// registered, under distinct ids and distinct names, the page's operators
/// are wrapped twice and each form is painted after its restore, and its
/// resources get two entries.
pub proof fn placing_a_form_twice(
    d0: DocumentView,
    d1: DocumentView,
    d2: DocumentView,
    page_id: ObjectId,
    a: StreamView,
    b: StreamView,
)
    requires
        d1.max_id < u32::MAX,
        form_placed(d0, page_id, a, d1),
        form_placed(d1, page_id, b, d2),
    ensures
        d2.objects == d0.objects + seq![(next_id(d0), a), (next_id(d1), b)],
        next_id(d0) != next_id(d1),
        next_name(d0) != next_name(d1),
        exists|i: int|
            #[trigger] is_first_page(d0.pages, page_id, i) && d2.pages[i].content == seq![save_op(), save_op()]
                + d0.pages[i].content + seq![
                restore_op(),
                invoke_op(next_name(d0)),
                restore_op(),
                invoke_op(next_name(d1)),
            ] && d2.pages[i].xobjects == d0.pages[i].xobjects + seq![
                (next_name(d0), next_id(d0)),
                (next_name(d1), next_id(d1)),
            ],
{
    let i = choose|i: int|
        #[trigger] is_first_page(d0.pages, page_id, i) && registered_and_placed(
            d0,
            page_id,
            a,
            i,
            form_spliced(d0.pages[i].content, next_name(d0)),
            d1,
        );
    let j = choose|j: int|
        #[trigger] is_first_page(d1.pages, page_id, j) && registered_and_placed(
            d1,
            page_id,
            b,
            j,
            form_spliced(d1.pages[j].content, next_name(d1)),
            d2,
        );
    same_first_page(d0, page_id, a, i, form_spliced(d0.pages[i].content, next_name(d0)), d1, j);
    resource_names_distinct(d0.max_id + 1, d1.max_id + 1);
    assert(d2.objects =~= d0.objects + seq![(next_id(d0), a), (next_id(d1), b)]);
    assert(d2.pages[i].content =~= seq![save_op(), save_op()] + d0.pages[i].content + seq![
        restore_op(),
        invoke_op(next_name(d0)),
        restore_op(),
        invoke_op(next_name(d1)),
    ]);
    assert(d2.pages[i].xobjects =~= d0.pages[i].xobjects + seq![
        (next_name(d0), next_id(d0)),
        (next_name(d1), next_id(d1)),
    ]);
}

impl Document {
    /// A document with no objects and no pages.
    pub fn new() -> (r: Document)
        ensures
            r@.max_id == 0,
            r@.objects.len() == 0,
            r@.pages.len() == 0,
    {
        Document { max_id: 0, objects: Vec::new(), pages: Vec::new() }
    }

    /// Hands out the next object id.
    fn allocate_id(&mut self) -> (r: ObjectId)
        requires
            old(self).max_id < u32::MAX,
        ensures
            r == next_id(old(self)@),
            final(self)@ == (DocumentView { max_id: old(self)@.max_id + 1, ..old(self)@ }),
    {
        self.max_id = self.max_id + 1;
        (self.max_id, 0)
    }

    /// Registers `obj` under the next object id and returns that id.
    pub fn add_object(&mut self, obj: Stream) -> (r: ObjectId)
        requires
            old(self).max_id < u32::MAX,
        ensures
            r == next_id(old(self)@),
            final(self)@.max_id == old(self)@.max_id + 1,
            final(self)@.objects == old(self)@.objects.push((r, obj@)),
            final(self)@.pages == old(self)@.pages,
    {
        let id = self.allocate_id();
        self.objects.push((id, obj));
        assert(self@.objects =~= old(self)@.objects.push((id, obj@)));
        id
    }

    /// Adds a page with the operators `content` and no resources, under the
    /// next object id, and returns that id.
    pub fn add_page(&mut self, content: Vec<Operation>) -> (r: ObjectId)
        requires
            old(self).max_id < u32::MAX,
        ensures
            r == next_id(old(self)@),
            final(self)@.max_id == old(self)@.max_id + 1,
            final(self)@.objects == old(self)@.objects,
            final(self)@.pages == old(self)@.pages.push(
                PageView { id: r, content: operations_view(content@), xobjects: Seq::empty() },
            ),
    {
        let id = self.allocate_id();
        let xobjects: Vec<(Vec<u8>, ObjectId)> = Vec::new();
        let page = Page { id, content, xobjects };
        self.pages.push(page);
        assert(page@.xobjects =~= Seq::<(Seq<u8>, ObjectId)>::empty());
        assert(self@.pages =~= old(self)@.pages.push(page@));
        id
    }

    /// The position of the first page with id `id`, if there is one.
    pub fn page_index(&self, id: ObjectId) -> (r: Option<usize>)
        ensures
            r matches Some(i) ==> is_first_page(self@.pages, id, i as int),
            r is None <==> !has_page(self@.pages, id),
    {
        let mut i: usize = 0;
        while i < self.pages.len()
            invariant
                0 <= i <= self.pages@.len(),
                forall|j: int| 0 <= j < i ==> #[trigger] self@.pages[j].id != id,
            decreases self.pages.len() - i,
        {
            if self.pages[i].id.0 == id.0 && self.pages[i].id.1 == id.1 {
                assert(self@.pages[i as int].id == id);
                return Some(i);
            }
            i = i + 1;
        }
        None
    }

    /// Registers `img_object` and paints it on page `page_id` at `position`
    /// (its lower left corner), scaled to `size`: `q`, `w 0 0 h x y cm`,
    /// `/X<n> Do` and `Q` are appended to the page's operators, which stay
    /// as they are, and `X<n>` is filed in the page's resources.
    pub fn insert_image(
        &mut self,
        page_id: ObjectId,
        img_object: Stream,
        position: (Real, Real),
        size: (Real, Real),
    ) -> (r: Result<(), EmbedError>)
        requires
            old(self).max_id < u32::MAX,
        ensures
            r is Err <==> !has_page(old(self)@.pages, page_id),
            r is Err ==> r == Err::<(), EmbedError>(EmbedError::PageNotFound) && final(self)@
                == old(self)@,
            r is Ok ==> image_placed(old(self)@, page_id, img_object@, position, size, final(self)@),
    {
        let found = self.page_index(page_id);
        match found {
            None => Err(EmbedError::PageNotFound),
            Some(i) => {
                let ghost before = self@;
                let ghost obj = img_object@;
                let img_id = self.add_object(img_object);
                let img_name = resource_name(img_id.0);
                let mut page = self.pages.remove(i);
                splice_image(&mut page.content, &img_name, position, size);
                page.xobjects.push((img_name, img_id));
                self.pages.insert(i, page);
                proof {
                    let content = image_spliced(before.pages[i as int].content, next_name(before), position, size);
                    assert(page@.xobjects =~= before.pages[i as int].xobjects.push((next_name(before), next_id(before))));
                    assert(self@.pages =~= before.pages.update(
                        i as int,
                        PageView { id: page_id, content, xobjects: page@.xobjects },
                    ));
                    assert(registered_and_placed(before, page_id, obj, i as int, content, self@));
                }
                Ok(())
            },
        }
    }

    /// Registers `form_obj` and paints it on page `page_id`: `q` is put
    /// before the page's operators, `Q` and `/X<n> Do` after them, and
    /// `X<n>` is filed in the page's resources.
    pub fn insert_form_object(&mut self, page_id: ObjectId, form_obj: Stream) -> (r: Result<(), EmbedError>)
        requires
            old(self).max_id < u32::MAX,
        ensures
            r is Err <==> !has_page(old(self)@.pages, page_id),
            r is Err ==> r == Err::<(), EmbedError>(EmbedError::PageNotFound) && final(self)@
                == old(self)@,
            r is Ok ==> form_placed(old(self)@, page_id, form_obj@, final(self)@),
    {
        let found = self.page_index(page_id);
        match found {
            None => Err(EmbedError::PageNotFound),
            Some(i) => {
                let ghost before = self@;
                let ghost obj = form_obj@;
                let form_id = self.add_object(form_obj);
                let form_name = resource_name(form_id.0);
                let mut page = self.pages.remove(i);
                splice_form(&mut page.content, &form_name);
                page.xobjects.push((form_name, form_id));
                self.pages.insert(i, page);
                proof {
                    let content = form_spliced(before.pages[i as int].content, next_name(before));
                    assert(page@.xobjects =~= before.pages[i as int].xobjects.push((next_name(before), next_id(before))));
                    assert(self@.pages =~= before.pages.update(
                        i as int,
                        PageView { id: page_id, content, xobjects: page@.xobjects },
                    ));
                    assert(registered_and_placed(before, page_id, obj, i as int, content, self@));
                }
                Ok(())
            },
        }
    }
}

} // verus!
