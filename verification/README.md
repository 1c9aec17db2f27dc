# fltk-form

Forms built from data: each field of a value becomes a widget of a form, and
the form's properties (its labelled widgets) can be read, written, listed and
renamed by name.

- `src/` is the library, verified with Verus. It describes a form's widgets by
  plain values (`widget::Widget`) and holds the logic: which widget stands for
  which kind of value (`data::FltkForm`), what reading, writing, listing and
  renaming a property does (`props`, `form`), the decimal text of integers
  (`text`), the property map (`propmap`), the errors and their messages
  (`error`), and the laws that tie the operations together (`laws`).
- `app/` puts those forms on screen with fltk: it builds fltk widgets from the
  description, reads live widgets back into it, and writes the library's
  answers to them. It writes floating-point numbers as text, which the
  library's `FloatText` then turns into a field.
