# wxtop

A terminal weather client. The library (`src/`) holds the parts that decide
and compute, each with a contract that Verus proves:

- `input`: the search field, a string with a char cursor (typing, deleting,
  cursor moves, the byte offset of the cursor in the UTF-8 text);
- `keys`: key events and the messages they stand for;
- `list`: the selection in the list of found places;
- `app`: the application state and how it reacts to messages and events,
  returning what it wants done (search, save the configuration) as a command;
- `debounce`: when to ask the location search while the user types;
- `weather`: the places the location search answers with, their list lines,
  and the search address;
- `layout`: where the prompt sits on screen and how it is cut; the cuts
  themselves come from the terminal UI library's layout solver, whose
  results the contract of the wrapper around it states only where the
  solver's source fixes them;
- `config`: what is remembered between runs;
- `text`: UTF-8 facts and the few std string operations the rest relies on.

`app/` is the program around it: the terminal, the event loop, the debounce
task, HTTP requests, the configuration file, and drawing.
